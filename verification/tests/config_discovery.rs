use noemoji::config::{Config, ConfigError, LogConfig, TomlError};
use noemoji::logging::LogLevel;
use std::path::PathBuf;

use noemoji::resolve::{ReadOutcome, Visited, Walk, WalkStep, CONFIG_FILE_NAME};

fn found(text: &str) -> ReadOutcome {
    ReadOutcome::Found(text.to_owned())
}

#[test]
fn load_config_finds_file_in_current_directory() {
    let result = Config::resolve(vec![
        found("[log]\nlevel = \"debug\"\n"),
        ReadOutcome::NotFound,
        ReadOutcome::NotFound,
    ]);

    assert!(result.is_ok());
    let config = result.unwrap();
    assert_eq!(config.log.level, Some(LogLevel::Debug));
}

#[test]
fn load_config_searches_parent_directories() {
    let result = Config::resolve(vec![
        ReadOutcome::NotFound,
        found("[log]\nlevel = \"info\"\n"),
        ReadOutcome::NotFound,
    ]);

    assert!(result.is_ok());
    let config = result.unwrap();
    assert_eq!(config.log.level, Some(LogLevel::Info));
}

#[test]
fn load_config_searches_up_to_filesystem_root() {
    let result = Config::resolve(vec![
        ReadOutcome::NotFound,
        ReadOutcome::NotFound,
        ReadOutcome::NotFound,
        ReadOutcome::NotFound,
        found("[log]\nlevel = \"warn\"\n"),
        ReadOutcome::NotFound,
        ReadOutcome::NotFound,
    ]);

    assert!(result.is_ok());
    let config = result.unwrap();
    assert_eq!(config.log.level, Some(LogLevel::Warn));
}

#[test]
fn load_config_returns_default_when_no_file_found() {
    let result = Config::resolve(vec![ReadOutcome::NotFound, ReadOutcome::NotFound]);

    assert!(result.is_ok());
    let config = result.unwrap();
    assert_eq!(config, Config::default());
}

#[test]
fn load_config_handles_permission_errors() {
    let result = Config::resolve(vec![
        ReadOutcome::Failed(std::io::Error::from(std::io::ErrorKind::PermissionDenied)),
        ReadOutcome::NotFound,
    ]);

    // Should return error for permission denied
    assert!(result.is_err());
    match result {
        Err(ConfigError::IoError(e)) => {
            assert_eq!(e.kind(), std::io::ErrorKind::PermissionDenied)
        }
        other => panic!("expected an I/O error, got {:?}", other),
    }
}

#[test]
fn load_config_handles_invalid_toml() {
    let result = Config::resolve(vec![
        found("[log\nlevel = debug\n"),
        ReadOutcome::NotFound,
    ]);

    // Should return error for invalid TOML
    assert!(result.is_err());
}

#[test]
fn load_config_prefers_closer_config_file() {
    let result = Config::resolve(vec![
        found("[log]\nlevel = \"debug\"\n"),
        found("[log]\nlevel = \"info\"\n"),
        ReadOutcome::NotFound,
    ]);

    assert!(result.is_ok());
    let config = result.unwrap();
    // The closer file with debug wins over the parent with info
    assert_eq!(config.log.level, Some(LogLevel::Debug));
}

#[test]
fn resolve_of_no_directory_is_the_default() {
    assert_eq!(Config::resolve(Vec::new()).unwrap(), Config::default());
}

#[test]
fn resolve_single_file_equals_parsing_it() {
    let texts = [
        "",
        "inherit = false",
        "[log]\nlevel = \"trace\"",
        "inherit = true\n[log]\nlevel = \"off\"",
        "inherit = false\nlog.level = \"warning\"",
    ];
    for text in texts {
        let parsed = noemoji::config::parse_config(text).unwrap();
        for depth in 0..3 {
            let mut outcomes = Vec::new();
            for _ in 0..depth {
                outcomes.push(ReadOutcome::NotFound);
            }
            outcomes.push(found(text));
            outcomes.push(ReadOutcome::NotFound);
            assert_eq!(Config::resolve(outcomes).unwrap(), parsed);
        }
    }
}

#[test]
fn resolve_closer_warn_wins_over_debug_above() {
    let config = Config::resolve(vec![
        found("[log]\nlevel = \"warn\""),
        found("[log]\nlevel = \"debug\""),
    ])
    .unwrap();
    assert_eq!(config.log.level, Some(LogLevel::Warn));
}

#[test]
fn resolve_stop_file_hides_what_is_above() {
    let config = Config::resolve(vec![
        found("inherit = false\n[log]\nlevel = \"error\""),
        found("[log]\nlevel = \"debug\""),
    ])
    .unwrap();
    assert_eq!(
        config,
        Config {
            log: LogConfig {
                level: Some(LogLevel::Error)
            },
            inherit: false
        }
    );

    // Whatever lies above a file that ends the walk is never looked at.
    let config = Config::resolve(vec![
        found("inherit = false\n[log]\nlevel = \"error\""),
        found("[log"),
        ReadOutcome::Failed(std::io::Error::from(std::io::ErrorKind::PermissionDenied)),
    ])
    .unwrap();
    assert_eq!(config.log.level, Some(LogLevel::Error));
    assert!(!config.inherit);
}

#[test]
fn resolve_twice_gives_the_same() {
    let make = || {
        vec![
            ReadOutcome::NotFound,
            found("[log]\nlevel = \"info\""),
            found("inherit = false\n[log]\nlevel = \"trace\""),
            found("[log]\nlevel = \"error\""),
        ]
    };
    let first = Config::resolve(make()).unwrap();
    let second = Config::resolve(make()).unwrap();
    assert_eq!(first, second);
    assert_eq!(first.log.level, Some(LogLevel::Info));
    assert!(!first.inherit);
}

#[test]
fn resolve_fails_on_a_malformed_file_that_is_reached() {
    let below_and_above = Config::resolve(vec![
        found("[log]\nlevel = \"info\""),
        found("[log]\nlevel = \"loud\""),
        found("[log]\nlevel = \"debug\""),
    ]);
    match below_and_above {
        Err(ConfigError::InvalidToml(TomlError::InvalidLevel(e))) => {
            assert_eq!(e.value, "loud");
        }
        other => panic!("expected the refused level, got {:?}", other),
    }

    let error = Config::resolve(vec![
        ReadOutcome::NotFound,
        found("inherit = maybe"),
        found("inherit = false"),
    ])
    .unwrap_err();
    assert!(matches!(
        error,
        ConfigError::InvalidToml(TomlError::Syntax(_))
    ));
    assert!(error.message().contains("TOML"));
}

#[test]
fn resolve_empty_child_falls_back_to_parent() {
    let config = Config::resolve(vec![found(""), found("[log]\nlevel = \"info\"")]).unwrap();
    assert_eq!(config.log.level, Some(LogLevel::Info));
    assert!(config.inherit);
}

#[test]
fn resolve_keeps_the_flag_of_the_file_where_the_walk_ended() {
    let config = Config::resolve(vec![
        found("[log]\nlevel = \"debug\""),
        found("inherit = false\n[log]\nlevel = \"error\""),
        found("[log]\nlevel = \"trace\""),
    ])
    .unwrap();
    assert_eq!(config.log.level, Some(LogLevel::Debug));
    assert!(!config.inherit);
}

#[test]
fn resolve_absent_ancestor_leaves_the_flag_at_continue() {
    // A walk that finds nothing above ends as one that found files that
    // all let it pass: the flag says "go on".
    let config = Config::resolve(vec![
        found("inherit = true\n[log]\nlevel = \"warn\""),
        ReadOutcome::NotFound,
    ])
    .unwrap();
    assert!(config.inherit);
    assert_eq!(config.log.level, Some(LogLevel::Warn));
}

#[test]
fn walk_step_by_step_matches_resolve() {
    let walk = Walk::start(PathBuf::from("/a/b/c"));
    assert_eq!(walk.directory(), &PathBuf::from("/a/b/c"));
    assert_eq!(walk.config_path(), PathBuf::from("/a/b/c/.noemoji.toml"));

    let walk = match walk.visit(ReadOutcome::NotFound) {
        WalkStep::Ascend(walk) => walk,
        WalkStep::Done(result) => panic!("ended early with {:?}", result),
    };
    assert_eq!(walk.directory(), &PathBuf::from("/a/b"));
    assert_eq!(walk.config_path(), PathBuf::from("/a/b/.noemoji.toml"));

    let walk = match walk.visit(found("[log]\nlevel = \"info\"")) {
        WalkStep::Ascend(walk) => walk,
        WalkStep::Done(result) => panic!("ended early with {:?}", result),
    };
    assert_eq!(walk.directory(), &PathBuf::from("/a"));

    match walk.visit(found("inherit = false\n[log]\nlevel = \"error\"")) {
        WalkStep::Done(Ok(config)) => {
            assert_eq!(config.log.level, Some(LogLevel::Info));
            assert!(!config.inherit);
        }
        other => panic!("expected the walk to end, got {:?}", other),
    }
}

#[test]
fn walk_ends_at_the_root() {
    let walk = Walk::start(PathBuf::from("/a"));
    let walk = match walk.visit(found("log.level = \"trace\"")) {
        WalkStep::Ascend(walk) => walk,
        WalkStep::Done(result) => panic!("ended early with {:?}", result),
    };
    assert_eq!(walk.directory(), &PathBuf::from("/"));
    assert_eq!(walk.config_path(), PathBuf::from("/.noemoji.toml"));
    match walk.visit(ReadOutcome::NotFound) {
        WalkStep::Done(Ok(config)) => {
            assert_eq!(config.log.level, Some(LogLevel::Trace));
            assert!(config.inherit);
        }
        other => panic!("expected the walk to end at the root, got {:?}", other),
    }

    // A relative directory has the empty path above it, and nothing above that.
    let walk = Walk::start(PathBuf::from("sub"));
    let walk = match walk.visit(ReadOutcome::NotFound) {
        WalkStep::Ascend(walk) => walk,
        WalkStep::Done(result) => panic!("ended early with {:?}", result),
    };
    assert_eq!(walk.directory(), &PathBuf::from(""));
    assert_eq!(walk.config_path(), PathBuf::from(".noemoji.toml"));
    assert!(matches!(
        walk.visit(ReadOutcome::NotFound),
        WalkStep::Done(Ok(config)) if config == Config::default()
    ));
}

#[test]
fn walk_ends_on_errors() {
    assert!(matches!(
        Walk::start(PathBuf::from("/a/b")).visit(ReadOutcome::Failed(std::io::Error::from(
            std::io::ErrorKind::PermissionDenied
        ))),
        WalkStep::Done(Err(ConfigError::IoError(_)))
    ));
    assert!(matches!(
        Walk::start(PathBuf::from("/a/b")).visit(found("[log")),
        WalkStep::Done(Err(ConfigError::InvalidToml(_)))
    ));
}

#[test]
fn absorb_takes_in_one_directory() {
    let gathered = Config {
        log: LogConfig { level: None },
        inherit: true,
    };
    assert!(matches!(
        gathered.absorb(ReadOutcome::NotFound),
        Visited::Ascend(config) if config == gathered
    ));
    assert!(matches!(
        gathered.absorb(found("[log]\nlevel = \"warn\"")),
        Visited::Ascend(config) if config.log.level == Some(LogLevel::Warn) && config.inherit
    ));
    assert!(matches!(
        gathered.absorb(found("inherit = false")),
        Visited::Done(Ok(config)) if config.log.level.is_none() && !config.inherit
    ));
    let set = Config {
        log: LogConfig {
            level: Some(LogLevel::Error),
        },
        inherit: true,
    };
    assert!(matches!(
        set.absorb(found("inherit = false\n[log]\nlevel = \"debug\"")),
        Visited::Done(Ok(config)) if config.log.level == Some(LogLevel::Error) && !config.inherit
    ));
}

#[test]
fn settings_file_is_a_dotfile() {
    assert_eq!(CONFIG_FILE_NAME, ".noemoji.toml");
}

#[test]
fn read_outcome_sorts_what_reading_gave() {
    assert!(matches!(
        ReadOutcome::of(Ok("inherit = false".to_owned())),
        ReadOutcome::Found(text) if text == "inherit = false"
    ));
    assert!(matches!(
        ReadOutcome::of(Err(std::io::Error::from(std::io::ErrorKind::NotFound))),
        ReadOutcome::NotFound
    ));
    assert!(matches!(
        ReadOutcome::of(Err(std::io::Error::from(std::io::ErrorKind::PermissionDenied))),
        ReadOutcome::Failed(e) if e.kind() == std::io::ErrorKind::PermissionDenied
    ));
    assert!(matches!(
        ReadOutcome::of(Err(std::io::Error::from(std::io::ErrorKind::InvalidData))),
        ReadOutcome::Failed(_)
    ));
}
