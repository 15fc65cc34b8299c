//! Log verbosity levels and the names they are written with.

use vstd::prelude::*;
use vstd::string::StringExecFns;

verus! {

/// The `log` crate's filter, with the same six levels.
#[verifier::external_type_specification]
pub struct ExLevelFilter(log::LevelFilter);

/// The `log` crate's level of a single record.
#[verifier::external_type_specification]
pub struct ExLevel(log::Level);

/// The environment variable that sets the filter and overrides every
/// other.
pub const FILTER_VARIABLE: &'static str = "NOEMOJI_LOG";

/// The environment variable that sets the filter where the first is not
/// set.
pub const FALLBACK_FILTER_VARIABLE: &'static str = "RUST_LOG";

/// The name of a filter as the `log` crate writes it.
pub open spec fn filter_name(filter: log::LevelFilter) -> Seq<char> {
    match filter {
        log::LevelFilter::Off => "OFF"@,
        log::LevelFilter::Error => "ERROR"@,
        log::LevelFilter::Warn => "WARN"@,
        log::LevelFilter::Info => "INFO"@,
        log::LevelFilter::Debug => "DEBUG"@,
        log::LevelFilter::Trace => "TRACE"@,
    }
}

/// `LevelFilter::as_str` gives the filter's name in upper case.
pub assume_specification[ log::LevelFilter::as_str ](filter: &log::LevelFilter) -> (name:
    &'static str)
    ensures
        name@ == filter_name(*filter),
;

/// How much the program logs.
#[derive(Debug, Clone, Copy, PartialEq, Eq, Structural)]
pub enum LogLevel {
    /// No logging output
    Disabled,
    /// Log errors only
    Error,
    /// Log warnings and above
    Warn,
    /// Log info and above
    Info,
    /// Log debug and above
    Debug,
    /// Log everything
    Trace,
}

impl Default for LogLevel {
    fn default() -> (level: LogLevel)
        ensures
            level == LogLevel::Disabled,
    {
        LogLevel::Disabled
    }
}

/// The code of a character after ASCII upper-case letters are lowered;
/// every other character keeps its code.
pub open spec fn lowered_code(c: char) -> int {
    if 'A' <= c && c <= 'Z' {
        c as int + 32
    } else {
        c as int
    }
}

/// Whether two texts are the same but for the case of their ASCII letters.
pub open spec fn same_ignoring_ascii_case(a: Seq<char>, b: Seq<char>) -> bool {
    &&& a.len() == b.len()
    &&& forall|i: int| 0 <= i < a.len() ==> lowered_code(#[trigger] a[i]) == lowered_code(b[i])
}

/// The level that a text names, in any case: `off`, `disabled` and `none`
/// for no logging, `warn` and `warning` for warnings, and each other level
/// by its own name.
pub open spec fn named_level(text: Seq<char>) -> Option<LogLevel> {
    if same_ignoring_ascii_case(text, "off"@) || same_ignoring_ascii_case(text, "disabled"@)
        || same_ignoring_ascii_case(text, "none"@) {
        Some(LogLevel::Disabled)
    } else if same_ignoring_ascii_case(text, "error"@) {
        Some(LogLevel::Error)
    } else if same_ignoring_ascii_case(text, "warn"@) || same_ignoring_ascii_case(
        text,
        "warning"@,
    ) {
        Some(LogLevel::Warn)
    } else if same_ignoring_ascii_case(text, "info"@) {
        Some(LogLevel::Info)
    } else if same_ignoring_ascii_case(text, "debug"@) {
        Some(LogLevel::Debug)
    } else if same_ignoring_ascii_case(text, "trace"@) {
        Some(LogLevel::Trace)
    } else {
        None
    }
}

/// Calls `str::eq_ignore_ascii_case`, which std documents as comparing the
/// two strings after lowering the ASCII letters of both.
#[verifier::external_body]
fn eq_ignore_ascii_case(a: &str, b: &str) -> (same: bool)
    ensures
        same == same_ignoring_ascii_case(a@, b@),
{
    a.eq_ignore_ascii_case(b)
}

/// A text that names no log level.
#[derive(Debug, Clone, PartialEq, Eq)]
pub struct ParseLogLevelError {
    /// The text as it was given
    pub value: String,
}

impl View for ParseLogLevelError {
    type V = Seq<char>;

    /// The rejected text.
    open spec fn view(&self) -> Seq<char> {
        self.value@
    }
}

impl ParseLogLevelError {
    /// The sentence that reports the rejected text, with the names that
    /// would have been accepted.
    pub fn message(&self) -> (text: String)
        ensures
            text@ == "invalid log level '"@ + self.value@
                + "', expected: off/disabled/none, error, warn(ing), info, debug, or trace"@,
    {
        let mut text = String::from_str("invalid log level '");
        text.append(self.value.as_str());
        text.append("', expected: off/disabled/none, error, warn(ing), info, debug, or trace");
        text
    }
}

impl LogLevel {
    /// Reads a level from its name, ignoring the case of ASCII letters. A
    /// text that names no level comes back unchanged inside the error.
    pub fn from_str(s: &str) -> (parsed: Result<LogLevel, ParseLogLevelError>)
        ensures
            match named_level(s@) {
                Some(level) => parsed == Ok::<LogLevel, ParseLogLevelError>(level),
                None => parsed is Err && parsed->Err_0@ == s@,
            },
    {
        if eq_ignore_ascii_case(s, "off") || eq_ignore_ascii_case(s, "disabled")
            || eq_ignore_ascii_case(s, "none") {
            Ok(LogLevel::Disabled)
        } else if eq_ignore_ascii_case(s, "error") {
            Ok(LogLevel::Error)
        } else if eq_ignore_ascii_case(s, "warn") || eq_ignore_ascii_case(s, "warning") {
            Ok(LogLevel::Warn)
        } else if eq_ignore_ascii_case(s, "info") {
            Ok(LogLevel::Info)
        } else if eq_ignore_ascii_case(s, "debug") {
            Ok(LogLevel::Debug)
        } else if eq_ignore_ascii_case(s, "trace") {
            Ok(LogLevel::Trace)
        } else {
            Err(ParseLogLevelError { value: String::from_str(s) })
        }
    }

    /// The `log` crate's filter for this level.
    pub open spec fn filter(self) -> log::LevelFilter {
        match self {
            LogLevel::Disabled => log::LevelFilter::Off,
            LogLevel::Error => log::LevelFilter::Error,
            LogLevel::Warn => log::LevelFilter::Warn,
            LogLevel::Info => log::LevelFilter::Info,
            LogLevel::Debug => log::LevelFilter::Debug,
            LogLevel::Trace => log::LevelFilter::Trace,
        }
    }

    /// The filter that holds where no environment variable sets one: the
    /// name of this level's filter.
    pub fn default_filter(self) -> (name: &'static str)
        ensures
            name@ == filter_name(self.filter()),
    {
        self.to_level_filter().as_str()
    }

    /// The `log` crate's filter for this level.
    pub fn to_level_filter(self) -> (filter: log::LevelFilter)
        ensures
            filter == self.filter(),
    {
        match self {
            LogLevel::Disabled => log::LevelFilter::Off,
            LogLevel::Error => log::LevelFilter::Error,
            LogLevel::Warn => log::LevelFilter::Warn,
            LogLevel::Info => log::LevelFilter::Info,
            LogLevel::Debug => log::LevelFilter::Debug,
            LogLevel::Trace => log::LevelFilter::Trace,
        }
    }
}

/// Which environment variable the logger reads its filter from: the
/// program's own where it is set, whatever the other holds.
pub fn filter_variable(own_is_set: bool) -> (name: &'static str)
    ensures
        name@ == if own_is_set {
            FILTER_VARIABLE@
        } else {
            FALLBACK_FILTER_VARIABLE@
        },
{
    if own_is_set {
        FILTER_VARIABLE
    } else {
        FALLBACK_FILTER_VARIABLE
    }
}

/// The tag of a record's level in a log line: the level's name in lower
/// case.
pub open spec fn level_tag(level: log::Level) -> Seq<char> {
    match level {
        log::Level::Error => "error"@,
        log::Level::Warn => "warn"@,
        log::Level::Info => "info"@,
        log::Level::Debug => "debug"@,
        log::Level::Trace => "trace"@,
    }
}

/// One line of the log: the program's name, the level in square brackets,
/// a colon and the message.
pub fn log_line(program: &str, level: log::Level, message: &str) -> (line: String)
    ensures
        line@ == program@ + "["@ + level_tag(level) + "]: "@ + message@,
{
    let tag = match level {
        log::Level::Error => "error",
        log::Level::Warn => "warn",
        log::Level::Info => "info",
        log::Level::Debug => "debug",
        log::Level::Trace => "trace",
    };
    let mut line = String::from_str(program);
    line.append("[");
    line.append(tag);
    line.append("]: ");
    line.append(message);
    line
}

impl std::str::FromStr for LogLevel {
    type Err = ParseLogLevelError;

    fn from_str(s: &str) -> (parsed: Result<LogLevel, ParseLogLevelError>)
        ensures
            match named_level(s@) {
                Some(level) => parsed == Ok::<LogLevel, ParseLogLevelError>(level),
                None => parsed is Err && parsed->Err_0@ == s@,
            },
    {
        LogLevel::from_str(s)
    }
}

} // verus!
