//! Settings snapshots and the rule by which two of them combine.

use vstd::prelude::*;
use vstd::string::StringExecFns;
use crate::document::{
    parse_document, parsed_document, table_entries, table_get, value_as_bool, value_as_str,
    value_as_table, value_flag, value_section, value_text,
};
use crate::logging::{named_level, LogLevel, ParseLogLevelError};

verus! {

/// Settings of the logger, the `[log]` section of a settings file.
#[derive(Debug, PartialEq, Eq, Clone, Copy)]
pub struct LogConfig {
    /// Log level; `None` where the file does not set one
    pub level: Option<LogLevel>,
}

impl Default for LogConfig {
    fn default() -> (log: LogConfig)
        ensures
            log == (LogConfig { level: None }),
    {
        LogConfig { level: None }
    }
}

/// One snapshot of the settings: what a single file holds, or what a walk
/// has gathered so far.
#[derive(Debug, PartialEq, Eq, Clone, Copy)]
pub struct Config {
    /// Logger settings
    pub log: LogConfig,
    /// Whether the search goes on to the parent directory
    pub inherit: bool,
}

impl Default for Config {
    fn default() -> (config: Config)
        ensures
            config == Config::canonical(),
    {
        Config { log: LogConfig { level: None }, inherit: true }
    }
}

impl Config {
    /// The settings that hold where no file says anything: no level, and
    /// the search goes on.
    pub open spec fn canonical() -> Config {
        Config { log: LogConfig { level: None }, inherit: true }
    }

    /// `self` merged over `fallback`: a level set in `self` wins, and the
    /// search flag is always the fallback's.
    pub open spec fn merged(self, fallback: Config) -> Config {
        Config {
            log: LogConfig {
                level: if self.log.level is Some {
                    self.log.level
                } else {
                    fallback.log.level
                },
            },
            inherit: fallback.inherit,
        }
    }

    /// Merges two snapshots field by field, `self` taking precedence.
    pub fn or(self, other: Config) -> (merged: Config)
        ensures
            merged == self.merged(other),
    {
        let level = match self.log.level {
            Some(level) => Some(level),
            None => other.log.level,
        };
        Config { log: LogConfig { level }, inherit: other.inherit }
    }
}

/// The canonical settings are neutral on the left: merged over a snapshot,
/// they give that snapshot.
pub proof fn lemma_canonical_merged(parsed: Config)
    ensures
        Config::canonical().merged(parsed) == parsed,
{
}

/// Merging is associative: three snapshots combine to the same settings
/// however they are grouped, the nearest set level and the last flag.
pub proof fn lemma_merged_associative(a: Config, b: Config, c: Config)
    ensures
        a.merged(b).merged(c) == a.merged(b.merged(c)),
{
}

/// A key that a settings file may set.
#[derive(Debug, Clone, Copy, PartialEq, Eq, Structural)]
pub enum ConfigKey {
    /// The top-level `inherit`, a boolean
    Inherit,
    /// The top-level `log`, a section
    Log,
    /// `level` inside `[log]`, a string
    Level,
}

/// Why the text of a settings file was refused.
#[derive(Debug)]
pub enum TomlError {
    /// The text is not well-formed
    Syntax(toml::de::Error),
    /// A key holds a value of another type than the settings expect
    WrongType(ConfigKey),
    /// The level is a string that names no level
    InvalidLevel(ParseLogLevelError),
}

/// `TomlError` as contracts speak of it: with the rejected level as a
/// sequence of characters.
pub enum TomlFault {
    Syntax(toml::de::Error),
    WrongType(ConfigKey),
    InvalidLevel(Seq<char>),
}

impl View for TomlError {
    type V = TomlFault;

    open spec fn view(&self) -> TomlFault {
        match self {
            TomlError::Syntax(e) => TomlFault::Syntax(*e),
            TomlError::WrongType(key) => TomlFault::WrongType(*key),
            TomlError::InvalidLevel(e) => TomlFault::InvalidLevel(e@),
        }
    }
}

/// Why settings could not be had.
#[derive(Debug)]
pub enum ConfigError {
    /// A settings file was read and refused
    InvalidToml(TomlError),
    /// A settings file may exist but could not be read
    IoError(std::io::Error),
}

/// `ConfigError` as contracts speak of it.
pub enum ConfigFault {
    InvalidToml(TomlFault),
    IoError(std::io::Error),
}

impl View for ConfigError {
    type V = ConfigFault;

    open spec fn view(&self) -> ConfigFault {
        match self {
            ConfigError::InvalidToml(e) => ConfigFault::InvalidToml(e@),
            ConfigError::IoError(e) => ConfigFault::IoError(*e),
        }
    }
}

impl ConfigKey {
    /// The key as a settings file writes it, with the type it takes.
    pub open spec fn described(self) -> Seq<char> {
        match self {
            ConfigKey::Inherit => "`inherit`, expected a boolean"@,
            ConfigKey::Log => "`log`, expected a table"@,
            ConfigKey::Level => "`log.level`, expected a string"@,
        }
    }

    /// Describes the key and the type it takes.
    pub fn describe(self) -> (text: &'static str)
        ensures
            text@ == self.described(),
    {
        match self {
            ConfigKey::Inherit => "`inherit`, expected a boolean",
            ConfigKey::Log => "`log`, expected a table",
            ConfigKey::Level => "`log.level`, expected a string",
        }
    }
}

impl TomlError {
    /// Whether `text` is what this error says: for text that is not
    /// well-formed, what the parser's error shows; else the key at fault
    /// with the type it takes, or the level that was refused.
    pub open spec fn says(self, text: String) -> bool {
        match self {
            TomlError::Syntax(e) => vstd::string::to_string_from_display_ensures::<
                toml::de::Error,
            >(&e, text),
            TomlError::WrongType(key) => text@ == "invalid type for "@ + key.described(),
            TomlError::InvalidLevel(e) => text@ == "invalid log level '"@ + e@
                + "', expected: off/disabled/none, error, warn(ing), info, debug, or trace"@,
        }
    }

    /// What the error says, for a reader.
    pub fn message(&self) -> (text: String)
        ensures
            self.says(text),
    {
        match self {
            TomlError::Syntax(e) => e.to_string(),
            TomlError::WrongType(key) => {
                let mut text = String::from_str("invalid type for ");
                text.append(key.describe());
                text
            },
            TomlError::InvalidLevel(e) => e.message(),
        }
    }
}

impl ConfigError {
    /// Whether `text` is what this error says: which kind of failure, then
    /// the failure itself.
    pub open spec fn says(self, text: String) -> bool {
        match self {
            ConfigError::InvalidToml(e) => exists|inner: String| #[trigger]
                e.says(inner) && text@ == "Invalid TOML configuration: "@ + inner@,
            ConfigError::IoError(e) => exists|inner: String| #[trigger]
                vstd::string::to_string_from_display_ensures::<std::io::Error>(&e, inner) && text@
                    == "I/O error while reading configuration: "@ + inner@,
        }
    }

    /// What the error says, for a reader.
    pub fn message(&self) -> (text: String)
        ensures
            self.says(text),
    {
        match self {
            ConfigError::InvalidToml(e) => {
                let mut text = String::from_str("Invalid TOML configuration: ");
                let inner = e.message();
                text.append(inner.as_str());
                text
            },
            ConfigError::IoError(e) => {
                let mut text = String::from_str("I/O error while reading configuration: ");
                let inner = e.to_string();
                text.append(inner.as_str());
                text
            },
        }
    }
}

/// What a table says of `inherit`: the search goes on unless the key is
/// there and false; a value that is no boolean is refused.
pub open spec fn inherit_of_table(table: toml::Table) -> Result<bool, TomlFault> {
    let entries = table_entries(table);
    if !entries.contains_key("inherit"@) {
        Ok(true)
    } else {
        match value_flag(entries["inherit"@]) {
            Some(flag) => Ok(flag),
            None => Err(TomlFault::WrongType(ConfigKey::Inherit)),
        }
    }
}

/// What a `[log]` section says of the level: unset unless the key is
/// there; a value that is no string, or a string that names no level, is
/// refused.
pub open spec fn level_of_section(section: toml::Table) -> Result<Option<LogLevel>, TomlFault> {
    let entries = table_entries(section);
    if !entries.contains_key("level"@) {
        Ok(None)
    } else {
        match value_text(entries["level"@]) {
            None => Err(TomlFault::WrongType(ConfigKey::Level)),
            Some(text) => match named_level(text) {
                Some(level) => Ok(Some(level)),
                None => Err(TomlFault::InvalidLevel(text)),
            },
        }
    }
}

/// What a table says of the level: unset unless it has a `log` section
/// that sets it; a `log` that is no section is refused.
pub open spec fn level_of_table(table: toml::Table) -> Result<Option<LogLevel>, TomlFault> {
    let entries = table_entries(table);
    if !entries.contains_key("log"@) {
        Ok(None)
    } else {
        match value_section(entries["log"@]) {
            None => Err(TomlFault::WrongType(ConfigKey::Log)),
            Some(section) => level_of_section(section),
        }
    }
}

/// The settings that a table holds. `inherit` is looked at first, so where
/// both keys are at fault, it is the one reported.
pub open spec fn config_of_table(table: toml::Table) -> Result<Config, TomlFault> {
    match inherit_of_table(table) {
        Err(fault) => Err(fault),
        Ok(inherit) => match level_of_table(table) {
            Err(fault) => Err(fault),
            Ok(level) => Ok(Config { log: LogConfig { level }, inherit }),
        },
    }
}

/// The settings that a text holds: those of the table it parses to.
pub open spec fn config_of_text(text: Seq<char>) -> Result<Config, TomlFault> {
    match parsed_document(text) {
        Err(e) => Err(TomlFault::Syntax(e)),
        Ok(table) => config_of_table(table),
    }
}

/// A table without entries holds the canonical settings.
pub proof fn lemma_empty_table_is_canonical(table: toml::Table)
    requires
        table_entries(table) =~= Map::<Seq<char>, toml::Value>::empty(),
    ensures
        config_of_table(table) == Ok::<Config, TomlFault>(Config::canonical()),
{
}

/// A result as contracts speak of it: the error by its view.
pub open spec fn parsed_view(parsed: Result<Config, TomlError>) -> Result<Config, TomlFault> {
    match parsed {
        Ok(config) => Ok(config),
        Err(e) => Err(e@),
    }
}

fn inherit_from_table(table: &toml::Table) -> (inherit: Result<bool, TomlError>)
    ensures
        match inherit {
            Ok(flag) => inherit_of_table(*table) == Ok::<bool, TomlFault>(flag),
            Err(e) => inherit_of_table(*table) == Err::<bool, TomlFault>(e@),
        },
{
    match table_get(table, "inherit") {
        None => Ok(true),
        Some(value) => match value_as_bool(value) {
            Some(flag) => Ok(flag),
            None => Err(TomlError::WrongType(ConfigKey::Inherit)),
        },
    }
}

fn level_from_section(section: &toml::Table) -> (level: Result<Option<LogLevel>, TomlError>)
    ensures
        match level {
            Ok(l) => level_of_section(*section) == Ok::<Option<LogLevel>, TomlFault>(l),
            Err(e) => level_of_section(*section) == Err::<Option<LogLevel>, TomlFault>(e@),
        },
{
    match table_get(section, "level") {
        None => Ok(None),
        Some(value) => match value_as_str(value) {
            None => Err(TomlError::WrongType(ConfigKey::Level)),
            Some(text) => match LogLevel::from_str(text) {
                Ok(level) => Ok(Some(level)),
                Err(e) => Err(TomlError::InvalidLevel(e)),
            },
        },
    }
}

fn level_from_table(table: &toml::Table) -> (level: Result<Option<LogLevel>, TomlError>)
    ensures
        match level {
            Ok(l) => level_of_table(*table) == Ok::<Option<LogLevel>, TomlFault>(l),
            Err(e) => level_of_table(*table) == Err::<Option<LogLevel>, TomlFault>(e@),
        },
{
    match table_get(table, "log") {
        None => Ok(None),
        Some(value) => match value_as_table(value) {
            None => Err(TomlError::WrongType(ConfigKey::Log)),
            Some(section) => level_from_section(section),
        },
    }
}

impl Config {
    /// Reads the settings out of a parsed document. Keys that the settings
    /// do not know are passed over.
    pub fn from_table(table: &toml::Table) -> (parsed: Result<Config, TomlError>)
        ensures
            parsed_view(parsed) == config_of_table(*table),
    {
        let inherit = match inherit_from_table(table) {
            Ok(flag) => flag,
            Err(e) => {
                return Err(e);
            },
        };
        match level_from_table(table) {
            Ok(level) => Ok(Config { log: LogConfig { level }, inherit }),
            Err(e) => Err(e),
        }
    }
}

/// Parses the text of a settings file. A key that is missing leaves its
/// field at the default: no level, and the search goes on.
pub fn parse_config(toml_str: &str) -> (parsed: Result<Config, TomlError>)
    ensures
        parsed_view(parsed) == config_of_text(toml_str@),
{
    match parse_document(toml_str) {
        Err(e) => Err(TomlError::Syntax(e)),
        Ok(table) => Config::from_table(&table),
    }
}

} // verus!
