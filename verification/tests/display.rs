use gitwatch::{CommandError, Config, Displayer, GitRepository};

fn repo(name: &str, files: Option<Vec<&str>>, auto_push: bool, active: bool) -> GitRepository {
    GitRepository {
        name: name.to_owned(),
        branch: "main".to_owned(),
        path: format!("/srv/{}", name),
        files: files.map(|list| list.into_iter().map(|file| file.to_owned()).collect()),
        auto_push,
        active,
    }
}

#[test]
fn repositories_without_a_list() {
    assert_eq!(Config::default().repositories(), "No repositories added yet.\n");
}

#[test]
fn repositories_with_an_empty_list_shows_nothing() {
    let config = Config { repositories: Some(vec![]), logging_path: None };
    assert_eq!(config.repositories(), "");
}

#[test]
fn repositories_are_numbered_from_one() {
    let config = Config {
        repositories: Some(vec![repo("a", None, true, false), repo("b", None, false, true)]),
        logging_path: None,
    };
    assert_eq!(
        config.repositories(),
        "1.\n name: a\n path: /srv/a\n auto_push: true\n active: false\n\
         2.\n name: b\n path: /srv/b\n auto_push: false\n active: true\n"
    );
}

#[test]
fn repositories_number_has_two_digits_from_ten() {
    let list: Vec<GitRepository> =
        (0..11).map(|i| repo(&format!("r{}", i), None, true, true)).collect();
    let config = Config { repositories: Some(list), logging_path: None };
    let text = config.repositories();
    assert!(text.contains("\n10.\n name: r9\n"));
    assert!(text.ends_with("11.\n name: r10\n path: /srv/r10\n auto_push: true\n active: true\n"));
}

#[test]
fn repository_files_are_numbered_from_one() {
    let config = Config {
        repositories: Some(vec![repo("a", Some(vec!["x.md", "dir/y"]), true, true)]),
        logging_path: None,
    };
    assert_eq!(
        config.repository_files("a"),
        Ok("Repository path: /srv/a\n1. relativ path: x.md\n2. relativ path: dir/y\n".to_owned())
    );
}

#[test]
fn repository_files_without_a_list() {
    let config =
        Config { repositories: Some(vec![repo("a", None, true, true)]), logging_path: None };
    assert_eq!(
        config.repository_files("a"),
        Ok("Repository path: /srv/a\nNo files added yet.\n".to_owned())
    );
}

#[test]
fn repository_files_with_an_empty_list() {
    let config = Config {
        repositories: Some(vec![repo("a", Some(vec![]), true, true)]),
        logging_path: None,
    };
    assert_eq!(config.repository_files("a"), Ok("Repository path: /srv/a\n".to_owned()));
}

#[test]
fn repository_files_of_an_unknown_repository_is_refused() {
    assert_eq!(
        Config::default().repository_files("a"),
        Err(CommandError::RepositoryNotFound)
    );
}

#[test]
fn info_at_shows_paths_and_count() {
    let config = Config {
        repositories: Some(vec![repo("a", None, true, true), repo("b", None, true, true)]),
        logging_path: Some("/tmp/gw.log".to_owned()),
    };
    assert_eq!(
        config.info_at("/home/u/.config/gitwatch-rs/config.yaml"),
        "Setting information:\n config path: /home/u/.config/gitwatch-rs/config.yaml\n \
         logging path: /tmp/gw.log\n repository count: 2\n"
    );
}

#[test]
fn info_at_without_logging_and_repositories() {
    assert_eq!(
        Config::default().info_at("/c.yaml"),
        "Setting information:\n config path: /c.yaml\n logging path: Logging not set!\n \
         repository count: 0\n"
    );
}

#[test]
fn info_uses_the_store_path() {
    let config = Config::default();
    match config.info() {
        Ok(text) => {
            assert!(text.starts_with("Setting information:\n config path: "));
            assert!(text.contains(".config/gitwatch-rs/config.yaml\n logging path: Logging not set!\n"));
        }
        Err(error) => assert_eq!(error, gitwatch::ConfigError::NoHomeDir),
    }
}
