//! Access to parsed TOML documents.
//!
//! Parsing and the accessors of `toml::Value` are done by the `toml` crate.
//! Their results are named here by uninterpreted spec functions: each one is
//! a function of its argument alone.
use vstd::prelude::*;

verus! {

#[verifier::external_type_specification]
#[verifier::external_body]
pub struct ExTomlValue(toml::Value);

#[verifier::external_type_specification]
#[verifier::external_body]
#[verifier::reject_recursive_types(K)]
#[verifier::reject_recursive_types(V)]
pub struct ExTomlMap<K, V>(toml::map::Map<K, V>);

#[verifier::external_type_specification]
#[verifier::external_body]
pub struct ExTomlDeError(toml::de::Error);

/// The table that the TOML document `text` parses to, if it is well formed.
pub uninterp spec fn parsed_document(text: Seq<char>) -> Option<toml::Table>;

/// What a TOML table holds: its keys and the value under each.
pub uninterp spec fn table_entries(t: toml::Table) -> Map<Seq<char>, toml::Value>;

/// The text of a value that is a TOML string.
pub uninterp spec fn str_of(v: toml::Value) -> Option<Seq<char>>;

/// The items of a value that is a TOML array.
pub uninterp spec fn array_of(v: toml::Value) -> Option<Seq<toml::Value>>;

/// The table of a value that is a TOML table.
pub uninterp spec fn table_of(v: toml::Value) -> Option<toml::Table>;

/// Relies on `<toml::Table as FromStr>::from_str`: parsing is a function of the
/// text alone, and fails exactly on text that is not a well-formed document.
#[verifier::external_body]
pub(crate) fn parse_document(text: &str) -> (r: Result<toml::Table, toml::de::Error>)
    ensures
        match r {
            Ok(t) => parsed_document(text@) == Some(t),
            Err(_) => parsed_document(text@) is None,
        },
{
    text.parse::<toml::Table>()
}

/// Relies on `toml::map::Map::get`: the value stored under `key`, if any.
#[verifier::external_body]
pub(crate) fn table_get<'a>(t: &'a toml::Table, key: &str) -> (r: Option<&'a toml::Value>)
    ensures
        r is Some <==> table_entries(*t).contains_key(key@),
        r is Some ==> *r->0 == table_entries(*t)[key@],
{
    t.get(key)
}

/// Relies on `toml::Value::as_str`: `Some` exactly for the `String` variant.
pub assume_specification<'a>[ toml::Value::as_str ](v: &'a toml::Value) -> (r: Option<&'a str>)
    ensures
        match r {
            Some(s) => str_of(*v) == Some(s@),
            None => str_of(*v) is None,
        },
;

/// Relies on `toml::Value::as_array`: `Some` exactly for the `Array` variant.
pub assume_specification<'a>[ toml::Value::as_array ](v: &'a toml::Value) -> (r: Option<&'a Vec<toml::Value>>)
    ensures
        match r {
            Some(a) => array_of(*v) == Some(a@),
            None => array_of(*v) is None,
        },
;

/// Relies on `toml::Value::as_table`: `Some` exactly for the `Table` variant.
pub assume_specification<'a>[ toml::Value::as_table ](v: &'a toml::Value) -> (r: Option<&'a toml::Table>)
    ensures
        match r {
            Some(t) => table_of(*v) == Some(*t),
            None => table_of(*v) is None,
        },
;

/// The value under `key` in table `t`, if there is one.
pub open spec fn lookup(t: toml::Table, key: Seq<char>) -> Option<toml::Value> {
    if table_entries(t).contains_key(key) {
        Some(table_entries(t)[key])
    } else {
        None
    }
}

/// The table under `key` in table `t`, if there is one and it is a table.
pub open spec fn subtable(t: toml::Table, key: Seq<char>) -> Option<toml::Table> {
    match lookup(t, key) {
        Some(v) => table_of(v),
        None => None,
    }
}

/// The string under `key` in table `t`, if there is one and it is a string.
pub open spec fn string_entry(t: toml::Table, key: Seq<char>) -> Option<Seq<char>> {
    match lookup(t, key) {
        Some(v) => str_of(v),
        None => None,
    }
}

/// Looks up the table stored under `key`.
pub fn get_table<'a>(t: &'a toml::Table, key: &str) -> (r: Option<&'a toml::Table>)
    ensures
        match r {
            Some(s) => subtable(*t, key@) == Some(*s),
            None => subtable(*t, key@) is None,
        },
{
    match table_get(t, key) {
        Some(v) => v.as_table(),
        None => None,
    }
}

/// Looks up the string stored under `key` and returns a copy of it.
pub fn get_string(t: &toml::Table, key: &str) -> (r: Option<String>)
    ensures
        match r {
            Some(s) => string_entry(*t, key@) == Some(s@),
            None => string_entry(*t, key@) is None,
        },
{
    match table_get(t, key) {
        Some(v) => match v.as_str() {
            Some(s) => Some(s.to_owned()),
            None => None,
        },
        None => None,
    }
}

} // verus!
