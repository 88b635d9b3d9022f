use gitwatch::config::locate;
use gitwatch::{Config, ConfigError, OperationsFacade};

#[test]
fn get_dir_returns_correct_dir_mock() {
    let home_test = "/home/test/";

    assert_eq!(
        locate(Some(home_test.to_owned())).unwrap(),
        home_test.to_owned() + ".config/gitwatch-rs/config.yaml"
    );
}

#[test]
fn locate_without_home_is_refused() {
    assert_eq!(locate(None), Err(ConfigError::NoHomeDir));
    assert_eq!(ConfigError::NoHomeDir.message(), "Impossible to get your home dir!");
}

#[test]
fn locate_puts_a_separator_where_home_has_none() {
    assert_eq!(
        locate(Some("/home/test".to_owned())).unwrap(),
        "/home/test/.config/gitwatch-rs/config.yaml"
    );
}

#[test]
fn locate_with_empty_home_is_relative() {
    assert_eq!(locate(Some(String::new())).unwrap(), ".config/gitwatch-rs/config.yaml");
}

#[test]
fn locate_agrees_with_path_join() {
    for home in ["/", "/home/ü", "relative/dir", "/a//", "/home/test/"] {
        let mut expected = std::path::PathBuf::from(home);
        expected.push(".config/gitwatch-rs/config.yaml");
        assert_eq!(locate(Some(home.to_owned())).unwrap(), expected.to_str().unwrap());
    }
}

#[test]
fn get_dir_ends_in_the_store_suffix() {
    let config = Config::default();
    match config.get_dir() {
        Ok(path) => assert!(path.ends_with(".config/gitwatch-rs/config.yaml")),
        Err(error) => assert_eq!(error, ConfigError::NoHomeDir),
    }
}

#[test]
fn create_default_resets_the_store() {
    let mut config = Config { repositories: Some(vec![]), logging_path: None };
    assert_eq!(config.create_default(false, false), Ok(()));
    assert_eq!(
        config,
        Config {
            repositories: None,
            logging_path: Some("/tmp/gitwatch-log/output.log".to_owned())
        }
    );
}

#[test]
fn create_default_keeps_an_existing_file() {
    let mut config = Config { repositories: Some(vec![]), logging_path: None };
    assert_eq!(config.create_default(false, true), Err(ConfigError::AlreadyExists));
    assert_eq!(config, Config { repositories: Some(vec![]), logging_path: None });
    assert_eq!(
        ConfigError::AlreadyExists.message(),
        "File already exists. Please call command with --overwrite if you want to replace it"
    );
}

#[test]
fn create_default_overwrites_on_request() {
    let mut config = Config { repositories: Some(vec![]), logging_path: None };
    assert_eq!(config.create_default(true, true), Ok(()));
    assert_eq!(config.repositories, None);
    assert_eq!(config.logging_path, Some("/tmp/gitwatch-log/output.log".to_owned()));
}

#[test]
fn load_takes_over_what_was_read() {
    let mut config = Config::default();
    let read = Config { repositories: None, logging_path: Some("/var/log/gw.log".to_owned()) };
    assert_eq!(config.load(Ok(read.clone())), Ok(()));
    assert_eq!(config, read);
}

#[test]
fn load_hands_a_failure_on() {
    let mut config = Config { repositories: None, logging_path: Some("x".to_owned()) };
    assert_eq!(config.load(Err(ConfigError::Unreadable)), Err(ConfigError::Unreadable));
    assert_eq!(
        config.load(Err(ConfigError::Invalid("bad indent".to_owned()))),
        Err(ConfigError::Invalid("bad indent".to_owned()))
    );
    assert_eq!(config.logging_path, Some("x".to_owned()));
    assert_eq!(
        ConfigError::Invalid("bad indent".to_owned()).message(),
        "Could not read config: bad indent"
    );
    assert!(ConfigError::Unreadable.message().starts_with("Failed to read config file."));
}

#[test]
fn default_store_is_empty() {
    let config = Config::default();
    assert_eq!(config.repositories, None);
    assert_eq!(config.logging_path, None);
}
