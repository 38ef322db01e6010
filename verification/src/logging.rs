//! How the server logs.

use vstd::prelude::*;
use crate::text::{
    all_digits, ascii_upper, decimal_value, is_ascii_text, is_digit, same_ignoring_ascii_case,
};

verus! {

/// How much is logged, from least to most.
#[derive(Clone, Copy, Debug, PartialEq, Eq, Structural)]
pub enum LogLevel {
    Error,
    Warn,
    Info,
    Debug,
    Trace,
}

/// What the logger is set up with.
#[derive(Debug)]
pub struct LoggingConfig {
    pub level: LogLevel,
    pub json_format: bool,
    pub log_dir: Option<String>,
    pub colorize: bool,
    pub log_file_name: String,
    pub log_targets: Option<Vec<String>>,
}

/// The contents of a [`LoggingConfig`].
pub struct LoggingConfigView {
    pub level: LogLevel,
    pub json_format: bool,
    pub log_dir: Option<Seq<char>>,
    pub colorize: bool,
    pub log_file_name: Seq<char>,
    pub log_targets: Option<Seq<Seq<char>>>,
}

impl View for LoggingConfig {
    type V = LoggingConfigView;

    open spec fn view(&self) -> LoggingConfigView {
        LoggingConfigView {
            level: self.level,
            json_format: self.json_format,
            log_dir: self.log_dir.deep_view(),
            colorize: self.colorize,
            log_file_name: self.log_file_name@,
            log_targets: self.log_targets.deep_view(),
        }
    }
}

/// The level that a number from 1 to 5 stands for.
pub open spec fn numbered_level(n: nat) -> Option<LogLevel> {
    if n == 1 {
        Some(LogLevel::Error)
    } else if n == 2 {
        Some(LogLevel::Warn)
    } else if n == 3 {
        Some(LogLevel::Info)
    } else if n == 4 {
        Some(LogLevel::Debug)
    } else if n == 5 {
        Some(LogLevel::Trace)
    } else {
        None
    }
}

/// The text without the plus sign it starts with, if it does.
pub open spec fn without_plus(text: Seq<char>) -> Seq<char> {
    if text.len() > 0 && text[0] == '+' {
        text.drop_first()
    } else {
        text
    }
}

/// The level that a numeral stands for: digits, with a plus sign before them or not.
pub open spec fn numeral_level(text: Seq<char>) -> Option<LogLevel> {
    if without_plus(text).len() > 0 && all_digits(without_plus(text)) {
        numbered_level(decimal_value(without_plus(text)))
    } else {
        None
    }
}

/// The level that a word stands for, in any case.
pub open spec fn word_level(text: Seq<char>) -> Option<LogLevel> {
    if same_ignoring_ascii_case(text, "error"@) {
        Some(LogLevel::Error)
    } else if same_ignoring_ascii_case(text, "warn"@) {
        Some(LogLevel::Warn)
    } else if same_ignoring_ascii_case(text, "info"@) {
        Some(LogLevel::Info)
    } else if same_ignoring_ascii_case(text, "debug"@) {
        Some(LogLevel::Debug)
    } else if same_ignoring_ascii_case(text, "trace"@) {
        Some(LogLevel::Trace)
    } else {
        None
    }
}

/// The level that a text stands for.
pub open spec fn level_of_text(text: Seq<char>) -> Option<LogLevel> {
    match numeral_level(text) {
        Some(level) => Some(level),
        None => word_level(text),
    }
}

/// The level for a setting: that of its upper-case form, and `Info` where there is no setting or
/// it stands for no level.
pub open spec fn level_of_setting(setting: Option<Seq<char>>) -> LogLevel {
    match setting {
        Some(text) => match level_of_text(uppercase(text)) {
            Some(level) => level,
            None => LogLevel::Info,
        },
        None => LogLevel::Info,
    }
}

/// Whether a setting of the log level stands for no level.
pub open spec fn is_rejected(setting: Option<Seq<char>>) -> bool {
    setting matches Some(text) && level_of_text(uppercase(text)) is None
}

/// Whether a level is that of a setting, if the setting is ASCII: then its case does not matter.
pub open spec fn follows_ascii_setting(level: LogLevel, setting: Option<Seq<char>>) -> bool {
    setting matches Some(text) ==> is_ascii_text(text) ==> level == match level_of_text(text) {
        Some(named) => named,
        None => LogLevel::Info,
    }
}

/// The upper-case form of a text, as Unicode defines it.
pub uninterp spec fn uppercase(text: Seq<char>) -> Seq<char>;

/// Claimed of `str::to_uppercase`: the result depends on the text alone. Of an ASCII text the
/// letters become upper case one by one and the rest stays.
pub assume_specification[ str::to_uppercase ](s: &str) -> (r: String)
    ensures
        r@ == uppercase(s@),
        is_ascii_text(s@) ==> r@ == ascii_upper(s@),
;

/// What `tracing` gives where a text stands for no level.
#[verifier::external_type_specification]
#[verifier::external_body]
pub struct ExParseLevelError(tracing::metadata::ParseLevelError);

/// The level that a text stands for, by the `FromStr` of `tracing::Level`.
///
/// Claimed of it: it takes the numerals from 1 to 5, with leading zeros or a plus sign too, and
/// the names of the five levels in any case, and refuses every other text.
#[verifier::external_body]
fn parse_level(text: &str) -> (r: Result<LogLevel, tracing::metadata::ParseLevelError>)
    ensures
        match r {
            Ok(level) => level_of_text(text@) == Some(level),
            Err(_) => level_of_text(text@) is None,
        },
{
    match text.parse::<tracing::Level>() {
        Ok(tracing::Level::ERROR) => Ok(LogLevel::Error),
        Ok(tracing::Level::WARN) => Ok(LogLevel::Warn),
        Ok(tracing::Level::INFO) => Ok(LogLevel::Info),
        Ok(tracing::Level::DEBUG) => Ok(LogLevel::Debug),
        Ok(tracing::Level::TRACE) => Ok(LogLevel::Trace),
        Err(error) => Err(error),
    }
}

/// Case makes no difference to the level of a text.
pub proof fn level_ignores_case(text: Seq<char>)
    ensures
        level_of_text(ascii_upper(text)) == level_of_text(text),
{
    let upper = ascii_upper(text);
    assert(ascii_upper(upper) =~= upper);
    let digits = without_plus(text);
    assert(without_plus(upper) =~= ascii_upper(digits));
    if all_digits(digits) {
        assert(ascii_upper(digits) =~= digits);
    } else {
        let i = choose|i: int| 0 <= i < digits.len() && !is_digit(#[trigger] digits[i]);
        assert(!is_digit(ascii_upper(digits)[i]));
    }
}

/// Reads a log level; `None` where the text stands for none.
pub fn level_of_upper(text: &str) -> (r: Option<LogLevel>)
    ensures
        r == level_of_text(text@),
{
    match parse_level(text) {
        Ok(level) => Some(level),
        Err(_) => None,
    }
}

/// Reads a setting of the log level, in upper case; `None` where it stands for no level.
pub fn parse_log_level(setting: &str) -> (r: Option<LogLevel>)
    ensures
        r == level_of_text(uppercase(setting@)),
        is_ascii_text(setting@) ==> r == level_of_text(setting@),
{
    proof {
        level_ignores_case(setting@);
    }
    level_of_upper(setting.to_uppercase().as_str())
}

/// Whether a setting of the log level is there and stands for no level, so that a warning is due.
pub fn rejects_setting(setting: &Option<String>) -> (r: bool)
    ensures
        r == (setting.deep_view() matches Some(text) && level_of_text(uppercase(text)) is None),
        r == is_rejected(setting.deep_view()),
        setting.deep_view() matches Some(text) ==> is_ascii_text(text) ==> r == (level_of_text(
            text,
        ) is None),
{
    match setting {
        Some(text) => parse_log_level(text.as_str()).is_none(),
        None => false,
    }
}

/// The log level for a setting, with `Info` where there is none or it stands for no level.
pub fn log_level(setting: &Option<String>) -> (r: LogLevel)
    ensures
        r == level_of_setting(setting.deep_view()),
        setting is None ==> r is Info,
        setting matches Some(text) ==> match level_of_text(uppercase(text@)) {
            Some(level) => r == level,
            None => r is Info,
        },
        follows_ascii_setting(r, setting.deep_view()),
{
    match setting {
        Some(text) => match parse_log_level(text.as_str()) {
            Some(level) => level,
            None => LogLevel::Info,
        },
        None => LogLevel::Info,
    }
}

/// The logger's settings for a directory and a level.
pub open spec fn logging_settings(
    log_dir: Option<Seq<char>>,
    log_level: Option<Seq<char>>,
) -> LoggingConfigView {
    LoggingConfigView {
        level: level_of_setting(log_level),
        json_format: false,
        log_dir,
        colorize: true,
        log_file_name: "sgl-router"@,
        log_targets: None,
    }
}

/// What the logger is set up with, given the directory and the level that were asked for.
pub fn logging_config(log_dir: &Option<String>, setting: &Option<String>) -> (r: LoggingConfig)
    ensures
        r@ == logging_settings(log_dir.deep_view(), setting.deep_view()),
        follows_ascii_setting(r.level, setting.deep_view()),
        setting is None ==> r.level is Info,
        setting matches Some(text) ==> match level_of_text(uppercase(text@)) {
            Some(level) => r.level == level,
            None => r.level is Info,
        },
        !r.json_format,
        r.log_dir.deep_view() == log_dir.deep_view(),
        r.colorize,
        r.log_file_name@ == "sgl-router"@,
        r.log_targets is None,
{
    LoggingConfig {
        level: log_level(setting),
        json_format: false,
        log_dir: log_dir.clone(),
        colorize: true,
        log_file_name: "sgl-router".to_owned(),
        log_targets: None,
    }
}

} // verus!
