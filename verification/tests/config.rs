use yt_mirror::config::app_config::AppConfig;
use yt_mirror::config::config::{join_path, Config, ConfigError, ProbedPath, ProbedPaths};

fn config_with(app_config: AppConfig) -> Config {
    Config::new("/etc/yt-mirror/config.toml".to_string(), app_config, None)
}

fn probe(path: &str, exists: bool) -> ProbedPath {
    ProbedPath { path: path.to_string(), exists }
}

/// Probes the paths of a configuration; `missing` names what is not on disk.
fn probed(config: &Config, missing: &[&str]) -> ProbedPaths {
    let look = |path: String| {
        let exists = !missing.contains(&path.as_str());
        ProbedPath { path, exists }
    };
    ProbedPaths {
        target_dir: look(config.get_target_dir().unwrap()),
        tmp_dir: look(config.get_tmp_dir().unwrap()),
        data_dir: look(config.get_data_dir().unwrap()),
        bookmark_files: config.get_bookmark_files().unwrap().into_iter().map(look).collect(),
    }
}

#[test]
fn it_should_reject_not_existing_target_dir() {
    let config = config_with(AppConfig {
        bookmark_files: vec!["/tmp".to_string()],
        tmp_dir: None,
        target_dir: "/foobar".to_string(),
        data_dir: Some("./example/yt-mirror-data".to_string()),
    });

    assert!(config.validate(&probed(&config, &["/foobar"])).is_err());
}

#[test]
fn it_should_reject_not_existing_tmp_dir() {
    let config = config_with(AppConfig {
        bookmark_files: vec!["/tmp".to_string()],
        tmp_dir: Some("/foobar".to_string()),
        target_dir: "/tmp".to_string(),
        data_dir: Some("./example/yt-mirror-data".to_string()),
    });

    assert!(config.validate(&probed(&config, &["/foobar"])).is_err());
}

#[test]
fn it_should_reject_empty_bookmark_files() {
    let config = config_with(AppConfig {
        bookmark_files: vec![],
        tmp_dir: None,
        target_dir: "/tmp".to_string(),
        data_dir: Some("./example/yt-mirror-data".to_string()),
    });

    assert!(config.validate(&probed(&config, &["/foobar"])).is_err());
}

#[test]
fn it_should_reject_not_existing_bookmark_files() {
    let config = config_with(AppConfig {
        bookmark_files: vec!["/tmp".to_string(), "/foobar".to_string()],
        tmp_dir: None,
        target_dir: "/tmp".to_string(),
        data_dir: Some("./example/yt-mirror-data".to_string()),
    });

    assert!(config.validate(&probed(&config, &["/foobar"])).is_err());
}

#[test]
fn it_should_accept_correct_config() {
    let config = config_with(AppConfig {
        bookmark_files: vec!["/tmp".to_string()],
        tmp_dir: None,
        target_dir: "/tmp".to_string(),
        data_dir: Some("./example/yt-mirror-data".to_string()),
    });

    assert!(config.validate(&probed(&config, &["/foobar"])).is_ok());
}

#[test]
fn the_default_settings_are_empty() {
    let settings = AppConfig::new_default();
    assert_eq!(
        settings,
        AppConfig { bookmark_files: vec![], target_dir: "".to_string(), tmp_dir: None, data_dir: None }
    );
}

#[test]
fn the_first_missing_directory_is_reported() {
    let config = config_with(AppConfig::new_default());
    let all_missing = ProbedPaths {
        target_dir: probe("/t", false),
        tmp_dir: probe("/w", false),
        data_dir: probe("/d", false),
        bookmark_files: vec![],
    };
    assert_eq!(
        config.validate(&all_missing),
        Err(ConfigError::TargetDirMissing { path: "/t".to_string() })
    );
    let tmp_missing = ProbedPaths {
        target_dir: probe("/t", true),
        tmp_dir: probe("/w", false),
        data_dir: probe("/d", false),
        bookmark_files: vec![],
    };
    assert_eq!(
        config.validate(&tmp_missing),
        Err(ConfigError::TmpDirMissing { path: "/w".to_string() })
    );
    let data_missing = ProbedPaths {
        target_dir: probe("/t", true),
        tmp_dir: probe("/w", true),
        data_dir: probe("/d", false),
        bookmark_files: vec![],
    };
    assert_eq!(
        config.validate(&data_missing),
        Err(ConfigError::DataDirMissing { path: "/d".to_string() })
    );
}

#[test]
fn bookmark_files_are_checked_after_the_directories() {
    let config = config_with(AppConfig::new_default());
    let none = ProbedPaths {
        target_dir: probe("/t", true),
        tmp_dir: probe("/w", true),
        data_dir: probe("/d", true),
        bookmark_files: vec![],
    };
    assert_eq!(config.validate(&none), Err(ConfigError::NoBookmarkFiles));
    let one_missing = ProbedPaths {
        target_dir: probe("/t", true),
        tmp_dir: probe("/w", true),
        data_dir: probe("/d", true),
        bookmark_files: vec![probe("/a", true), probe("/b", false), probe("/c", true)],
    };
    assert_eq!(config.validate(&one_missing), Err(ConfigError::BookmarkFileMissing));
    let all_there = ProbedPaths {
        target_dir: probe("/t", true),
        tmp_dir: probe("/w", true),
        data_dir: probe("/d", true),
        bookmark_files: vec![probe("/a", true), probe("/b", true)],
    };
    assert_eq!(config.validate(&all_there), Ok(()));
}

#[test]
fn the_messages_name_the_path_and_the_configuration_file() {
    let file = "/etc/c.toml";
    assert_eq!(
        ConfigError::TargetDirMissing { path: "/foobar".to_string() }.message(file),
        "Given target_dir (\"/foobar\") doesn't exist (config file path: \"/etc/c.toml\")"
    );
    assert_eq!(
        ConfigError::TmpDirMissing { path: "/x".to_string() }.message(file),
        "Given tmp_dir (\"/x\") doesn't exist (config file path: \"/etc/c.toml\")"
    );
    assert_eq!(
        ConfigError::DataDirMissing { path: "/y".to_string() }.message(file),
        "Given data_dir (\"/y\") doesn't exist (config file path: \"/etc/c.toml\")"
    );
    assert_eq!(
        ConfigError::NoBookmarkFiles.message(file),
        "Given bookmark_files list is empty (config file path: \"/etc/c.toml\")"
    );
    assert_eq!(
        ConfigError::BookmarkFileMissing.message(file),
        "Some of the bookmark_files doesn't exist (config file path: \"/etc/c.toml\")"
    );
    assert_eq!(
        ConfigError::HomeNotFound { path: "~nobody/x".to_string() }.message(file),
        "Cannot find the home directory of \"~nobody/x\" (config file path: \"/etc/c.toml\")"
    );
}

#[test]
fn names_are_joined_to_paths_with_one_separator() {
    assert_eq!(join_path("/data", "processes.sqlite"), "/data/processes.sqlite");
    assert_eq!(join_path("/data/", "processes.sqlite"), "/data/processes.sqlite");
    assert_eq!(join_path("", "yt-mirror"), "yt-mirror");
    assert_eq!(join_path("/", "tmp"), "/tmp");
    assert_eq!(join_path("rel", "x"), "rel/x");
}

#[test]
fn the_configuration_file_is_the_given_one_or_the_default() {
    assert_eq!(
        Config::config_file_path(Some("/x/c.toml".to_string()), Some("/cfg".to_string())),
        "/x/c.toml"
    );
    assert_eq!(
        Config::config_file_path(None, Some("/cfg".to_string())),
        "/cfg/yt-mirror/config.toml"
    );
    assert_eq!(Config::config_file_path(None, None), "~/.config/yt-mirror/config.toml");
}

#[test]
fn the_temporary_directory_defaults_to_tmp() {
    let config = config_with(AppConfig::new_default());
    assert_eq!(config.get_tmp_dir(), Ok("/tmp".to_string()));
    let configured = config_with(AppConfig {
        bookmark_files: vec![],
        target_dir: "/music".to_string(),
        tmp_dir: Some("/var/tmp".to_string()),
        data_dir: None,
    });
    assert_eq!(configured.get_tmp_dir(), Ok("/var/tmp".to_string()));
    assert_eq!(configured.get_target_dir(), Ok("/music".to_string()));
}

#[test]
fn the_data_directory_defaults_to_the_programs_directory() {
    let config = config_with(AppConfig::new_default());
    assert_eq!(config.get_data_dir(), Ok("~/.local/share/yt-mirror".to_string()));
    assert_eq!(
        config.get_process_path(),
        Ok("~/.local/share/yt-mirror/processes.sqlite".to_string())
    );
    let with_home = Config::new(
        "/c.toml".to_string(),
        AppConfig::new_default(),
        Some("/srv/data".to_string()),
    );
    assert_eq!(with_home.get_data_dir(), Ok("/srv/data/yt-mirror".to_string()));
    assert_eq!(
        with_home.get_process_path(),
        Ok("/srv/data/yt-mirror/processes.sqlite".to_string())
    );
    assert_eq!(with_home.config_file(), "/c.toml");
}

#[test]
fn a_configured_data_directory_is_used() {
    let config = Config::new(
        "/c.toml".to_string(),
        AppConfig {
            bookmark_files: vec![],
            target_dir: "".to_string(),
            tmp_dir: None,
            data_dir: Some("/var/lib/yt".to_string()),
        },
        Some("/srv/data".to_string()),
    );
    assert_eq!(config.get_data_dir(), Ok("/var/lib/yt".to_string()));
    assert_eq!(config.get_process_path(), Ok("/var/lib/yt/processes.sqlite".to_string()));
    assert_eq!(Config::process_path_in("/d"), "/d/processes.sqlite");
}

#[test]
fn bookmark_files_keep_their_order() {
    let config = config_with(AppConfig {
        bookmark_files: vec!["/b/Bookmarks".to_string(), "/a/places.sqlite".to_string()],
        target_dir: "/music".to_string(),
        tmp_dir: None,
        data_dir: None,
    });
    assert_eq!(
        config.get_bookmark_files(),
        Ok(vec!["/b/Bookmarks".to_string(), "/a/places.sqlite".to_string()])
    );
}

#[test]
fn a_tilde_is_replaced_by_a_home_directory() {
    let config = config_with(AppConfig {
        bookmark_files: vec![],
        target_dir: "~/music".to_string(),
        tmp_dir: None,
        data_dir: None,
    });
    match config.get_target_dir() {
        Ok(path) => {
            assert!(!path.starts_with('~'));
            assert!(path.ends_with("/music"));
        }
        Err(e) => assert_eq!(e, ConfigError::HomeNotFound { path: "~/music".to_string() }),
    }
}

#[test]
fn the_home_of_an_unknown_user_is_not_found() {
    let config = config_with(AppConfig {
        bookmark_files: vec!["/ok".to_string(), "~_no_such_user_/b".to_string()],
        target_dir: "~_no_such_user_/music".to_string(),
        tmp_dir: Some("~_no_such_user_/tmp".to_string()),
        data_dir: Some("~_no_such_user_/data".to_string()),
    });
    assert_eq!(
        config.get_target_dir(),
        Err(ConfigError::HomeNotFound { path: "~_no_such_user_/music".to_string() })
    );
    assert_eq!(
        config.get_tmp_dir(),
        Err(ConfigError::HomeNotFound { path: "~_no_such_user_/tmp".to_string() })
    );
    assert_eq!(
        config.get_data_dir(),
        Err(ConfigError::HomeNotFound { path: "~_no_such_user_/data".to_string() })
    );
    assert_eq!(
        config.get_process_path(),
        Err(ConfigError::HomeNotFound { path: "~_no_such_user_/data".to_string() })
    );
    assert_eq!(
        config.get_bookmark_files(),
        Err(ConfigError::HomeNotFound { path: "~_no_such_user_/b".to_string() })
    );
}

#[test]
fn a_failed_expansion_is_reported_with_the_path() {
    assert_eq!(
        Config::expanded_path("~ann/music", Some("/home/ann/music".to_string())),
        Ok("/home/ann/music".to_string())
    );
    assert_eq!(
        Config::expanded_path("~ann/music", None),
        Err(ConfigError::HomeNotFound { path: "~ann/music".to_string() })
    );
}

#[test]
fn a_path_without_a_home_directory_is_put_together_from_its_parts() {
    let target = |dir: &str| {
        config_with(AppConfig {
            bookmark_files: vec![],
            target_dir: dir.to_string(),
            tmp_dir: None,
            data_dir: None,
        })
        .get_target_dir()
    };
    assert_eq!(target("/music//albums/"), Ok("/music/albums".to_string()));
    assert_eq!(target("music/./albums"), Ok("music/albums".to_string()));
    assert_eq!(target("/music"), Ok("/music".to_string()));
    assert_eq!(target("./~music"), Ok("./~music".to_string()));
    assert_eq!(target(""), Ok("".to_string()));
}

#[test]
fn a_user_name_with_a_nul_names_no_user() {
    assert!(Config::names_impossible_user("~a\0b"));
    assert!(Config::names_impossible_user("~\0"));
    assert!(Config::names_impossible_user("~ab\0/music"));
    assert!(!Config::names_impossible_user("~/a\0b"));
    assert!(!Config::names_impossible_user("~ann/\0"));
    assert!(!Config::names_impossible_user("/a\0b"));
    assert!(!Config::names_impossible_user("\0~"));
    assert!(!Config::names_impossible_user("~ann"));
    assert!(!Config::names_impossible_user("~"));
    assert!(!Config::names_impossible_user(""));
}

#[test]
fn the_home_of_a_user_whose_name_holds_a_nul_is_not_found() {
    let config = config_with(AppConfig {
        bookmark_files: vec!["/ok".to_string(), "~\0/b".to_string()],
        target_dir: "~a\0b".to_string(),
        tmp_dir: Some("~a\0b/tmp".to_string()),
        data_dir: Some("~\0".to_string()),
    });
    assert_eq!(
        config.get_target_dir(),
        Err(ConfigError::HomeNotFound { path: "~a\0b".to_string() })
    );
    assert_eq!(
        config.get_tmp_dir(),
        Err(ConfigError::HomeNotFound { path: "~a\0b/tmp".to_string() })
    );
    assert_eq!(config.get_data_dir(), Err(ConfigError::HomeNotFound { path: "~\0".to_string() }));
    assert_eq!(
        config.get_process_path(),
        Err(ConfigError::HomeNotFound { path: "~\0".to_string() })
    );
    assert_eq!(
        config.get_bookmark_files(),
        Err(ConfigError::HomeNotFound { path: "~\0/b".to_string() })
    );
}

#[test]
fn a_nul_outside_a_user_name_is_left_to_the_file_system() {
    let config = config_with(AppConfig {
        bookmark_files: vec![],
        target_dir: "/a\0b".to_string(),
        tmp_dir: None,
        data_dir: None,
    });
    assert_eq!(config.get_target_dir(), Ok("/a\0b".to_string()));
}

#[test]
fn configured_directories_are_put_together_from_their_parts() {
    let config = config_with(AppConfig {
        bookmark_files: vec!["/b//Bookmarks".to_string(), "a/./places.sqlite".to_string()],
        target_dir: "/music/".to_string(),
        tmp_dir: Some("/var//tmp/".to_string()),
        data_dir: Some("/var/lib//yt/".to_string()),
    });
    assert_eq!(config.get_tmp_dir(), Ok("/var/tmp".to_string()));
    assert_eq!(config.get_data_dir(), Ok("/var/lib/yt".to_string()));
    assert_eq!(config.get_process_path(), Ok("/var/lib/yt/processes.sqlite".to_string()));
    assert_eq!(
        config.get_bookmark_files(),
        Ok(vec!["/b/Bookmarks".to_string(), "a/places.sqlite".to_string()])
    );
}
