use sgl_router::logging::{
    level_of_upper, log_level, logging_config, parse_log_level, rejects_setting, LogLevel,
};

#[test]
fn level_names_in_any_case() {
    let names = [
        ("error", LogLevel::Error),
        ("warn", LogLevel::Warn),
        ("info", LogLevel::Info),
        ("debug", LogLevel::Debug),
        ("trace", LogLevel::Trace),
        ("DEBUG", LogLevel::Debug),
        ("tRaCe", LogLevel::Trace),
        ("Error", LogLevel::Error),
    ];
    for (name, level) in names {
        assert_eq!(parse_log_level(name), Some(level));
    }
}

#[test]
fn level_numbers() {
    let numerals = [
        ("1", LogLevel::Error),
        ("2", LogLevel::Warn),
        ("3", LogLevel::Info),
        ("4", LogLevel::Debug),
        ("5", LogLevel::Trace),
        ("+4", LogLevel::Debug),
        ("005", LogLevel::Trace),
        ("+02", LogLevel::Warn),
    ];
    for (numeral, level) in numerals {
        assert_eq!(parse_log_level(numeral), Some(level));
    }
}

#[test]
fn other_texts_are_no_levels() {
    let others = [
        "", "+", "0", "6", "12", "-1", "1.0", " info", "info ", "warning", "off", "++1",
        "99999999999999999999999999999999",
    ];
    for other in others {
        assert_eq!(parse_log_level(other), None);
        assert_eq!(log_level(&Some(other.to_string())), LogLevel::Info);
        assert!(rejects_setting(&Some(other.to_string())));
    }
}

#[test]
fn upper_case_is_that_of_unicode() {
    assert_eq!(parse_log_level("\u{131}nfo"), Some(LogLevel::Info));
    assert_eq!(parse_log_level("\u{fb01}"), None);
}

#[test]
fn info_is_the_default() {
    assert_eq!(log_level(&None), LogLevel::Info);
    assert_eq!(log_level(&Some("trace".to_string())), LogLevel::Trace);
}

#[test]
fn logger_settings() {
    let config = logging_config(&Some("/var/log".to_string()), &Some("warn".to_string()));
    assert_eq!(config.level, LogLevel::Warn);
    assert!(!config.json_format);
    assert_eq!(config.log_dir.as_deref(), Some("/var/log"));
    assert!(config.colorize);
    assert_eq!(config.log_file_name, "sgl-router");
    assert!(config.log_targets.is_none());
    assert!(logging_config(&None, &None).log_dir.is_none());
}

#[test]
fn only_a_setting_that_is_no_level_is_rejected() {
    assert!(!rejects_setting(&None));
    assert!(!rejects_setting(&Some("info".to_string())));
    assert!(!rejects_setting(&Some("5".to_string())));
    assert!(rejects_setting(&Some("verbose".to_string())));
}

#[test]
fn upper_case_texts_are_read_as_they_are() {
    assert_eq!(level_of_upper("WARN"), Some(LogLevel::Warn));
    assert_eq!(level_of_upper("\u{131}NFO"), None);
    assert_eq!(level_of_upper("4"), Some(LogLevel::Debug));
}
