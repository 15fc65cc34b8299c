use noemoji::logging::{LogLevel, ParseLogLevelError};

#[test]
fn to_level_filter_converts_correctly() {
    assert_eq!(LogLevel::Disabled.to_level_filter(), log::LevelFilter::Off);
    assert_eq!(LogLevel::Error.to_level_filter(), log::LevelFilter::Error);
    assert_eq!(LogLevel::Warn.to_level_filter(), log::LevelFilter::Warn);
    assert_eq!(LogLevel::Info.to_level_filter(), log::LevelFilter::Info);
    assert_eq!(LogLevel::Debug.to_level_filter(), log::LevelFilter::Debug);
    assert_eq!(LogLevel::Trace.to_level_filter(), log::LevelFilter::Trace);
}

#[test]
fn from_str_accepts_canonical_names() {
    assert_eq!("off".parse::<LogLevel>().unwrap(), LogLevel::Disabled);
    assert_eq!("error".parse::<LogLevel>().unwrap(), LogLevel::Error);
    assert_eq!("warn".parse::<LogLevel>().unwrap(), LogLevel::Warn);
    assert_eq!("info".parse::<LogLevel>().unwrap(), LogLevel::Info);
    assert_eq!("debug".parse::<LogLevel>().unwrap(), LogLevel::Debug);
    assert_eq!("trace".parse::<LogLevel>().unwrap(), LogLevel::Trace);
}

#[test]
fn from_str_accepts_aliases() {
    // "disabled" and "none" are aliases for "off"
    assert_eq!("disabled".parse::<LogLevel>().unwrap(), LogLevel::Disabled);
    assert_eq!("none".parse::<LogLevel>().unwrap(), LogLevel::Disabled);
    // "warning" is an alias for "warn"
    assert_eq!("warning".parse::<LogLevel>().unwrap(), LogLevel::Warn);
}

#[test]
fn from_str_is_case_insensitive() {
    assert_eq!("DEBUG".parse::<LogLevel>().unwrap(), LogLevel::Debug);
    assert_eq!("Debug".parse::<LogLevel>().unwrap(), LogLevel::Debug);
    assert_eq!("WARNING".parse::<LogLevel>().unwrap(), LogLevel::Warn);
}

#[test]
fn from_str_rejects_invalid() {
    let invalid = "garbage";
    let err = invalid.parse::<LogLevel>().unwrap_err();
    assert_eq!(err.value, invalid);
    assert!(err.message().contains(invalid));
}

#[test]
fn from_str_inherent_agrees_with_parse() {
    assert_eq!(LogLevel::from_str("Off"), Ok(LogLevel::Disabled));
    assert_eq!(LogLevel::from_str("NONE"), Ok(LogLevel::Disabled));
    assert_eq!(
        LogLevel::from_str("warnings"),
        Err(ParseLogLevelError { value: "warnings".to_owned() })
    );
}

#[test]
fn from_str_rejects_near_misses() {
    for text in ["", " off", "off ", "of", "offf", "wárn", "ｏｆｆ", "tracE!", "k"] {
        let err = LogLevel::from_str(text).unwrap_err();
        assert_eq!(err.value, text);
    }
    // Only ASCII letters are folded: the Kelvin sign is no `k`.
    assert!(LogLevel::from_str("\u{212A}").is_err());
}

#[test]
fn parse_error_message_is_exact() {
    let err = ParseLogLevelError { value: "loud".to_owned() };
    assert_eq!(
        err.message(),
        "invalid log level 'loud', expected: off/disabled/none, error, warn(ing), info, debug, or trace"
    );
}

#[test]
fn default_level_is_disabled() {
    assert_eq!(LogLevel::default(), LogLevel::Disabled);
}

#[test]
fn default_filter_is_the_name_of_the_level() {
    assert_eq!(LogLevel::Disabled.default_filter(), "OFF");
    assert_eq!(LogLevel::Error.default_filter(), "ERROR");
    assert_eq!(LogLevel::Warn.default_filter(), "WARN");
    assert_eq!(LogLevel::Info.default_filter(), "INFO");
    assert_eq!(LogLevel::Debug.default_filter(), "DEBUG");
    assert_eq!(LogLevel::Trace.default_filter(), "TRACE");
}

#[test]
fn filter_variable_prefers_the_programs_own() {
    assert_eq!(noemoji::logging::filter_variable(true), "NOEMOJI_LOG");
    assert_eq!(noemoji::logging::filter_variable(false), "RUST_LOG");
}

#[test]
fn log_line_has_program_level_and_message() {
    assert_eq!(
        noemoji::logging::log_line("noemoji", log::Level::Debug, "logger initialized"),
        "noemoji[debug]: logger initialized"
    );
    assert_eq!(
        noemoji::logging::log_line("lint", log::Level::Error, ""),
        "lint[error]: "
    );
    assert_eq!(
        noemoji::logging::log_line("", log::Level::Warn, "w"),
        "[warn]: w"
    );
    assert_eq!(
        noemoji::logging::log_line("p", log::Level::Info, "i"),
        "p[info]: i"
    );
    assert_eq!(
        noemoji::logging::log_line("p", log::Level::Trace, "t"),
        "p[trace]: t"
    );
}
