//! The parsed form of a settings file, as the `toml` crate hands it out.
//!
//! Nothing here is proved: each item states what the crate's parser and its
//! value tree are taken to do, and the modules that read settings are proved
//! against these statements.

use vstd::prelude::*;

verus! {

/// The error that the `toml` crate reports for text it cannot read.
#[verifier::external_type_specification]
#[verifier::external_body]
pub struct ExDocumentError(toml::de::Error);

/// One value of a document: a string, a number, a table and so on.
#[verifier::external_type_specification]
#[verifier::external_body]
pub struct ExValue(toml::Value);

/// The crate's key/value map; a table of a document is one with string keys.
#[verifier::external_type_specification]
#[verifier::external_body]
#[verifier::reject_recursive_types(K)]
#[verifier::reject_recursive_types(V)]
pub struct ExTable<K, V>(toml::map::Map<K, V>);

/// What `toml::from_str` makes of a text when asked for a table.
pub uninterp spec fn parsed_document(text: Seq<char>) -> Result<toml::Table, toml::de::Error>;

/// The entries of a table, by key.
pub uninterp spec fn table_entries(table: toml::Table) -> Map<Seq<char>, toml::Value>;

/// The string that a value holds, if it is a string.
pub uninterp spec fn value_text(value: toml::Value) -> Option<Seq<char>>;

/// The boolean that a value holds, if it is a boolean.
pub uninterp spec fn value_flag(value: toml::Value) -> Option<bool>;

/// The table that a value holds, if it is a table.
pub uninterp spec fn value_section(value: toml::Value) -> Option<toml::Table>;

/// Calls `toml::from_str` for a `toml::Table`. The result depends on the
/// text alone, so it is named: `parsed_document`.
#[verifier::external_body]
pub(crate) fn parse_document(text: &str) -> (parsed: Result<toml::Table, toml::de::Error>)
    ensures
        parsed == parsed_document(text@),
{
    toml::from_str::<toml::Table>(text)
}

/// Calls `Map::get`: the value stored under `key`, or `None` where the
/// table has no such key.
#[verifier::external_body]
pub(crate) fn table_get<'a>(table: &'a toml::Table, key: &str) -> (found: Option<&'a toml::Value>)
    ensures
        match found {
            Some(value) => table_entries(*table).contains_key(key@)
                && table_entries(*table)[key@] == *value,
            None => !table_entries(*table).contains_key(key@),
        },
{
    table.get(key)
}

/// Calls `Value::as_str`: the string of a string value, `None` for any
/// other value.
#[verifier::external_body]
pub(crate) fn value_as_str<'a>(value: &'a toml::Value) -> (text: Option<&'a str>)
    ensures
        match text {
            Some(s) => value_text(*value) == Some(s@),
            None => value_text(*value) is None,
        },
{
    value.as_str()
}

/// Calls `Value::as_bool`: the boolean of a boolean value, `None` for any
/// other value.
#[verifier::external_body]
pub(crate) fn value_as_bool(value: &toml::Value) -> (flag: Option<bool>)
    ensures
        flag == value_flag(*value),
{
    value.as_bool()
}

/// Calls `Value::as_table`: the table of a table value, `None` for any
/// other value.
#[verifier::external_body]
pub(crate) fn value_as_table<'a>(value: &'a toml::Value) -> (section: Option<&'a toml::Table>)
    ensures
        match section {
            Some(t) => value_section(*value) == Some(*t),
            None => value_section(*value) is None,
        },
{
    value.as_table()
}

} // verus!
