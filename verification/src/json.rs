//! JSON texts, read and written by serde_json. Messages between the host,
//! its modules and their callers are JSON objects carried as text.
use vstd::prelude::*;

verus! {

/// What serde_json makes of `text`: `None` where it is no JSON value,
/// else the compact text that `Value`'s `Display` writes for it.
pub uninterp spec fn json_canonical_of(text: Seq<char>) -> Option<Seq<char>>;

/// The string under `key` in the JSON object `text`: `None` where `text`
/// is no JSON value, is no object, has no such key or holds no string there.
pub uninterp spec fn json_str_field_of(text: Seq<char>, key: Seq<char>) -> Option<Seq<char>>;

/// The compact JSON text of what stands under `key` in the JSON value
/// `text` (`null` where nothing does).
pub uninterp spec fn json_shown_field_of(text: Seq<char>, key: Seq<char>) -> Seq<char>;

/// The compact JSON text of the object with the one member `key`, whose
/// value is the string `value`.
pub uninterp spec fn json_object_of(key: Seq<char>, value: Seq<char>) -> Seq<char>;

/// Parses `text` with `serde_json::from_str::<serde_json::Value>` and, where
/// that succeeds, writes the value back with its `Display` (compact form).
/// Claimed: `None` exactly where the parse fails; the text is named, not
/// described.
#[verifier::external_body]
pub(crate) fn json_canonical(text: &str) -> (r: Option<String>)
    ensures
        match r {
            Some(s) => json_canonical_of(text@) == Some(s@),
            None => json_canonical_of(text@) is None,
        },
{
    match serde_json::from_str::<serde_json::Value>(text) {
        Ok(v) => Some(v.to_string()),
        Err(_) => None,
    }
}

/// Parses `text` with `serde_json::from_str::<serde_json::Value>`, indexes
/// the value with `key` (`Index<&str>`, which gives `null` for a missing key
/// or a value that is no object) and takes `Value::as_str` of the result.
/// Claimed: the result is the name applied to the arguments, and a string is
/// found only in a text that parses.
#[verifier::external_body]
pub(crate) fn json_str_field(text: &str, key: &str) -> (r: Option<String>)
    ensures
        r matches Some(s) ==> json_str_field_of(text@, key@) == Some(s@),
        r is None ==> json_str_field_of(text@, key@) is None,
        r is Some ==> json_canonical_of(text@) is Some,
{
    match serde_json::from_str::<serde_json::Value>(text) {
        Ok(v) => match v[key].as_str() {
            Some(s) => Some(s.to_string()),
            None => None,
        },
        Err(_) => None,
    }
}

/// Parses `text` with `serde_json::from_str::<serde_json::Value>`, indexes
/// the value with `key` and writes what it finds with `Value`'s `Display`.
/// The parse must succeed (`from_str(..).unwrap()` panics otherwise).
#[verifier::external_body]
pub(crate) fn json_shown_field(text: &str, key: &str) -> (r: String)
    requires
        json_canonical_of(text@) is Some,
    ensures
        r@ == json_shown_field_of(text@, key@),
{
    serde_json::from_str::<serde_json::Value>(text).unwrap()[key].to_string()
}

/// Builds a `serde_json::Map` with the one entry `key` -> `Value::String(value)`
/// and writes `Value::Object` of it with `Display`.
/// Claimed besides the name: serde_json reads back what it wrote, so the text
/// parses, is already in compact form, and holds `value` under `key`.
#[verifier::external_body]
pub(crate) fn json_object(key: &str, value: &str) -> (r: String)
    ensures
        r@ == json_object_of(key@, value@),
        json_canonical_of(r@) == Some(r@),
        json_str_field_of(r@, key@) == Some(value@),
{
    let mut m = serde_json::Map::new();
    m.insert(key.to_string(), serde_json::Value::String(value.to_string()));
    serde_json::Value::Object(m).to_string()
}

} // verus!
