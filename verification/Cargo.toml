[package]
name = "gitwatch"
version = "0.1.0"
edition = "2021"
publish = false

[dependencies]
clap = { version = "4", features = ["derive"] }
git2 = { version = "*", default-features = false }
home = "0.5"
log = "0.4"
log4rs = "1"
serde = { version = "1", features = ["derive"] }
serde_yaml = "0.9"
