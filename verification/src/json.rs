//! A plain-value model of a decoded JSON document, with the lookups that the
//! Web API responses are read through.
//!
//! The lookups follow the conventions of `serde_json::Value`: asking an object
//! for a missing key, or asking something that is not an object for a key, gives
//! nothing; indexing past the end of an array, or indexing something that is not
//! an array, gives nothing; `as_str`, `as_u64` and `as_bool` give nothing unless
//! the value has exactly that shape. "Nothing" here plays the part of
//! `Value::Null`, on which every further lookup again gives nothing.
use vstd::prelude::*;
use crate::text::str_eq;

verus! {

/// A JSON number, as far as the readers below distinguish numbers.
pub enum JsonNumber {
    /// A non-negative integer that fits in a `u64`.
    PosInt(u64),
    /// A negative integer that fits in an `i64`.
    NegInt(i64),
    /// Any other number (a fraction or one out of integer range).
    Float,
}

/// A decoded JSON value.
pub enum JsonValue {
    Null,
    Bool(bool),
    Number(JsonNumber),
    Str(String),
    Array(Vec<JsonValue>),
    /// The members of an object, each key at most once.
    Object(Vec<(String, JsonValue)>),
}

/// The value stored under `key` among the members `entries` (the first match).
pub open spec fn lookup(entries: Seq<(String, JsonValue)>, key: Seq<char>) -> Option<JsonValue>
    decreases entries.len(),
{
    if entries.len() == 0 {
        None
    } else if entries[0].0@ == key {
        Some(entries[0].1)
    } else {
        lookup(entries.drop_first(), key)
    }
}

/// `v.get(key)`: the member `key` of `v` when `v` is an object that has it.
pub open spec fn json_field(v: Option<JsonValue>, key: Seq<char>) -> Option<JsonValue> {
    match v {
        Some(JsonValue::Object(entries)) => lookup(entries@, key),
        _ => None,
    }
}

/// `v.get(i)`: the element `i` of `v` when `v` is an array that long.
pub open spec fn json_item(v: Option<JsonValue>, i: int) -> Option<JsonValue> {
    match v {
        Some(JsonValue::Array(items)) => if 0 <= i < items@.len() {
            Some(items@[i])
        } else {
            None
        },
        _ => None,
    }
}

/// `v.as_str()`, by the characters of the string.
pub open spec fn json_as_str(v: Option<JsonValue>) -> Option<Seq<char>> {
    match v {
        Some(JsonValue::Str(s)) => Some(s@),
        _ => None,
    }
}

/// `v.as_u64()`.
pub open spec fn json_as_u64(v: Option<JsonValue>) -> Option<u64> {
    match v {
        Some(JsonValue::Number(JsonNumber::PosInt(n))) => Some(n),
        _ => None,
    }
}

/// `v.as_bool()`.
pub open spec fn json_as_bool(v: Option<JsonValue>) -> Option<bool> {
    match v {
        Some(JsonValue::Bool(b)) => Some(b),
        _ => None,
    }
}

/// `v.as_array()`.
pub open spec fn json_as_array(v: Option<JsonValue>) -> Option<Seq<JsonValue>> {
    match v {
        Some(JsonValue::Array(items)) => Some(items@),
        _ => None,
    }
}

/// `v.as_str().unwrap_or(default)`.
pub open spec fn json_str_or(v: Option<JsonValue>, default: Seq<char>) -> Seq<char> {
    match json_as_str(v) {
        Some(s) => s,
        None => default,
    }
}

/// `v.as_u64().unwrap_or(default)`.
pub open spec fn json_u64_or(v: Option<JsonValue>, default: u64) -> u64 {
    match json_as_u64(v) {
        Some(n) => n,
        None => default,
    }
}

/// `serde_json::Value`, a document as `serde_json` decodes it; it is only
/// carried from the parser to `json_from_serde`.
#[verifier::external_type_specification]
#[verifier::external_body]
pub struct ExSerdeValue(serde_json::Value);

/// What `serde_json::from_str::<serde_json::Value>` makes of `text`: the
/// document it decodes, as a `JsonValue`, or the message of its error.
pub uninterp spec fn parsed_json(text: Seq<char>) -> Result<JsonValue, Seq<char>>;

/// A decoded document, or the parser's message, by its characters.
pub open spec fn document_view(d: Result<JsonValue, String>) -> Result<JsonValue, Seq<char>> {
    match d {
        Ok(v) => Ok(v),
        Err(m) => Err(m@),
    }
}

/// The plain-value copy of a `serde_json::Value`: numbers that fit a `u64`
/// are `PosInt`, other integers that fit an `i64` are `NegInt`, the rest
/// `Float`; object members keep the parser's order. Nothing is stated of it:
/// it is read only through `parse_json`.
#[verifier::external_body]
fn json_from_serde(v: &serde_json::Value) -> JsonValue {
    match v {
        serde_json::Value::Null => JsonValue::Null,
        serde_json::Value::Bool(b) => JsonValue::Bool(*b),
        serde_json::Value::Number(n) => JsonValue::Number(match (n.as_u64(), n.as_i64()) {
            (Some(u), _) => JsonNumber::PosInt(u),
            (None, Some(i)) => JsonNumber::NegInt(i),
            (None, None) => JsonNumber::Float,
        }),
        serde_json::Value::String(s) => JsonValue::Str(s.clone()),
        serde_json::Value::Array(a) => JsonValue::Array(a.iter().map(json_from_serde).collect()),
        serde_json::Value::Object(m) => JsonValue::Object(m.iter().map(|(k, x)| (k.clone(), json_from_serde(x))).collect()),
    }
}

/// Decodes `text` as JSON (`serde_json::from_str::<serde_json::Value>`): the
/// document, or the parser's error message (its `Display` text). The result
/// is `parsed_json(text)`; what that is on a given text is not stated here,
/// but that an empty text is an error (`EOF while parsing a value`).
#[verifier::external_body]
pub(crate) fn parse_json(text: &str) -> (r: Result<JsonValue, String>)
    ensures
        document_view(r) == parsed_json(text@),
        text@.len() == 0 ==> r is Err,
{
    match serde_json::from_str::<serde_json::Value>(text) {
        Ok(v) => Ok(json_from_serde(&v)),
        Err(e) => Err(e.to_string()),
    }
}

/// A reference, as the value it points to.
pub open spec fn deref_opt(r: Option<&JsonValue>) -> Option<JsonValue> {
    match r {
        Some(v) => Some(*v),
        None => None,
    }
}

/// The member `key` of `v` when `v` is an object that has it.
pub fn field<'a>(v: Option<&'a JsonValue>, key: &str) -> (r: Option<&'a JsonValue>)
    ensures
        deref_opt(r) == json_field(deref_opt(v), key@),
{
    match v {
        Some(JsonValue::Object(entries)) => {
            let mut i: usize = 0;
            assert(entries@.skip(0) =~= entries@);
            while i < entries.len()
                invariant
                    0 <= i <= entries@.len(),
                    deref_opt(v) == Some(JsonValue::Object(*entries)),
                    lookup(entries@, key@) == lookup(entries@.skip(i as int), key@),
                decreases entries@.len() - i,
            {
                assert(entries@.skip(i as int).drop_first() =~= entries@.skip(i + 1));
                assert(entries@.skip(i as int)[0] == entries@[i as int]);
                if str_eq(entries[i].0.as_str(), key) {
                    return Some(&entries[i].1);
                }
                i = i + 1;
            }
            None
        },
        _ => None,
    }
}

/// The element `i` of `v` when `v` is an array that long.
pub fn index<'a>(v: Option<&'a JsonValue>, i: usize) -> (r: Option<&'a JsonValue>)
    ensures
        deref_opt(r) == json_item(deref_opt(v), i as int),
{
    match v {
        Some(JsonValue::Array(items)) => {
            if i < items.len() {
                Some(&items[i])
            } else {
                None
            }
        },
        _ => None,
    }
}

/// The elements of `v` when `v` is an array.
pub fn as_array<'a>(v: Option<&'a JsonValue>) -> (r: Option<&'a Vec<JsonValue>>)
    ensures
        match r {
            Some(items) => json_as_array(deref_opt(v)) == Some(items@),
            None => json_as_array(deref_opt(v)) is None,
        },
{
    match v {
        Some(JsonValue::Array(items)) => Some(items),
        _ => None,
    }
}

/// `v.as_str().map(|s| s.to_string())`.
pub fn opt_string(v: Option<&JsonValue>) -> (r: Option<String>)
    ensures
        match r {
            Some(s) => json_as_str(deref_opt(v)) == Some(s@),
            None => json_as_str(deref_opt(v)) is None,
        },
{
    match v {
        Some(JsonValue::Str(s)) => Some(s.clone()),
        _ => None,
    }
}

/// `v.as_str().unwrap_or(default).to_string()`.
pub fn string_or(v: Option<&JsonValue>, default: &str) -> (r: String)
    ensures
        r@ == json_str_or(deref_opt(v), default@),
{
    match v {
        Some(JsonValue::Str(s)) => s.clone(),
        _ => crate::text::owned(default),
    }
}

/// `v.as_u64()`.
pub fn opt_u64(v: Option<&JsonValue>) -> (r: Option<u64>)
    ensures
        r == json_as_u64(deref_opt(v)),
{
    match v {
        Some(JsonValue::Number(JsonNumber::PosInt(n))) => Some(*n),
        _ => None,
    }
}

/// `v.as_u64().unwrap_or(default)`.
pub fn u64_or(v: Option<&JsonValue>, default: u64) -> (r: u64)
    ensures
        r == json_u64_or(deref_opt(v), default),
{
    match opt_u64(v) {
        Some(n) => n,
        None => default,
    }
}

/// `v.as_bool()`.
pub fn opt_bool(v: Option<&JsonValue>) -> (r: Option<bool>)
    ensures
        r == json_as_bool(deref_opt(v)),
{
    match v {
        Some(JsonValue::Bool(b)) => Some(*b),
        _ => None,
    }
}

} // verus!
