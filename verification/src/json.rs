//! The mathematical model of a JSON document, and the interface to
//! `serde_json`, which parses response bodies and holds the parsed documents.
//!
//! Everything in this module that is not a plain definition is a statement
//! about `serde_json` that the verifier takes on trust.

use vstd::prelude::*;

verus! {

/// A JSON number, as far as the decoders tell numbers apart.
pub enum JsonNumber {
    /// A non-negative integer that fits in 64 bits.
    Unsigned(u64),
    /// Any other number: negative, fractional, or an integer beyond 64 bits.
    Other,
}

/// The mathematical content of a JSON document.
pub enum JsonValue {
    Null,
    Bool(bool),
    Number(JsonNumber),
    Text(Seq<char>),
    Array(Seq<JsonValue>),
    Object(Map<Seq<char>, JsonValue>),
}

/// `serde_json::Value`, a parsed document. The verifier sees nothing inside
/// it: what it holds is [`json_of`].
#[verifier::external_type_specification]
#[verifier::external_body]
pub struct ExValue(serde_json::Value);

/// `serde_json::Map`, the members of an object. The verifier sees nothing
/// inside it: what it holds is [`members_of`].
#[verifier::external_type_specification]
#[verifier::external_body]
#[verifier::reject_recursive_types(K)]
#[verifier::reject_recursive_types(V)]
pub struct ExObject<K, V>(serde_json::Map<K, V>);

/// Where and why `serde_json` stopped reading a body that is not a JSON
/// document.
#[derive(Debug, Clone, PartialEq, Eq)]
pub struct SyntaxError {
    /// Line of the body at which parsing stopped, counted from one.
    pub line: usize,
    /// Column in that line, counted from one.
    pub column: usize,
    /// The parser's description of the fault.
    pub message: String,
}

/// The content of a parsed document held by `serde_json`.
pub uninterp spec fn json_of(v: serde_json::Value) -> JsonValue;

/// The members of an object under construction, by key.
pub uninterp spec fn members_of(o: serde_json::Map<String, serde_json::Value>) -> Map<
    Seq<char>,
    JsonValue,
>;

/// The document that a byte string spells out in JSON syntax, or `None` where
/// `serde_json` rejects the bytes.
pub uninterp spec fn json_document(bytes: Seq<u8>) -> Option<JsonValue>;

/// The contents of a sequence of parsed documents, item by item.
pub open spec fn json_items(items: Seq<serde_json::Value>) -> Seq<JsonValue> {
    Seq::new(items.len(), |i: int| json_of(items[i]))
}

/// `serde_json::from_slice` at type `serde_json::Value`: parsing depends on
/// the bytes alone. It succeeds exactly on the byte strings that spell out a
/// document, and the value then holds that document. Of the position and the
/// message of a failure nothing is claimed.
#[verifier::external_body]
pub(crate) fn parse_document(bytes: &[u8]) -> (r: Result<serde_json::Value, SyntaxError>)
    ensures
        match r {
            Ok(v) => json_document(bytes@) == Some(json_of(v)),
            Err(_) => json_document(bytes@) is None,
        },
{
    match serde_json::from_slice::<serde_json::Value>(bytes) {
        Ok(v) => Ok(v),
        Err(e) => Err(SyntaxError { line: e.line(), column: e.column(), message: e.to_string() }),
    }
}

/// `serde_json::Value::get` with a string index: the member stored under
/// `key` when the value is an object that has one, `None` otherwise.
#[verifier::external_body]
pub(crate) fn json_get<'a>(v: &'a serde_json::Value, key: &str) -> (r: Option<
    &'a serde_json::Value,
>)
    ensures
        match r {
            Some(m) => json_of(*v) matches JsonValue::Object(o) && o.contains_key(key@) && o[key@]
                == json_of(*m),
            None => !(json_of(*v) matches JsonValue::Object(o) && o.contains_key(key@)),
        },
{
    v.get(key)
}

/// `serde_json::Value::is_null`: whether the value is JSON `null`.
pub assume_specification[ serde_json::Value::is_null ](v: &serde_json::Value) -> (r: bool)
    ensures
        r == (json_of(*v) is Null),
;

/// `serde_json::Value::as_bool`: the truth value held, when the value is a
/// JSON boolean.
pub assume_specification[ serde_json::Value::as_bool ](v: &serde_json::Value) -> (r: Option<bool>)
    ensures
        r == (match json_of(*v) {
            JsonValue::Bool(b) => Some(b),
            _ => None,
        }),
;

/// `serde_json::Value::as_u64`: the number held, when the value is a
/// non-negative integer that fits in 64 bits.
pub assume_specification[ serde_json::Value::as_u64 ](v: &serde_json::Value) -> (r: Option<u64>)
    ensures
        r == (match json_of(*v) {
            JsonValue::Number(JsonNumber::Unsigned(n)) => Some(n),
            _ => None,
        }),
;

/// `serde_json::Value::as_str`: the characters held, when the value is a
/// JSON string.
pub assume_specification[ serde_json::Value::as_str ](v: &serde_json::Value) -> (r: Option<&str>)
    ensures
        match r {
            Some(s) => json_of(*v) == JsonValue::Text(s@),
            None => !(json_of(*v) is Text),
        },
;

/// `serde_json::Value::as_array`: the elements in order, when the value is a
/// JSON array.
pub assume_specification[ serde_json::Value::as_array ](v: &serde_json::Value) -> (r: Option<
    &Vec<serde_json::Value>,
>)
    ensures
        match r {
            Some(items) => json_of(*v) == JsonValue::Array(json_items(items@)),
            None => !(json_of(*v) is Array),
        },
;

/// The variant `serde_json::Value::Null`: the document `null`.
#[verifier::external_body]
pub(crate) fn json_null() -> (r: serde_json::Value)
    ensures
        json_of(r) == JsonValue::Null,
{
    serde_json::Value::Null
}

/// The variant `serde_json::Value::Bool`: the document `true` or `false`.
#[verifier::external_body]
pub(crate) fn json_bool(b: bool) -> (r: serde_json::Value)
    ensures
        json_of(r) == JsonValue::Bool(b),
{
    serde_json::Value::Bool(b)
}

/// `serde_json::Value::from` at `u64`: the number `n`, held as a
/// non-negative integer.
#[verifier::external_body]
pub(crate) fn json_u64(n: u64) -> (r: serde_json::Value)
    ensures
        json_of(r) == JsonValue::Number(JsonNumber::Unsigned(n)),
{
    serde_json::Value::from(n)
}

/// The variant `serde_json::Value::String`: the string with the characters
/// of `s`.
#[verifier::external_body]
pub(crate) fn json_text(s: String) -> (r: serde_json::Value)
    ensures
        json_of(r) == JsonValue::Text(s@),
{
    serde_json::Value::String(s)
}

/// The variant `serde_json::Value::Array`: the array of the given items, in
/// their order.
#[verifier::external_body]
pub(crate) fn json_array(items: Vec<serde_json::Value>) -> (r: serde_json::Value)
    ensures
        json_of(r) == JsonValue::Array(json_items(items@)),
{
    serde_json::Value::Array(items)
}

/// The variant `serde_json::Value::Object`: the object with the members
/// collected in `o`.
#[verifier::external_body]
pub(crate) fn json_object(o: serde_json::Map<String, serde_json::Value>) -> (r: serde_json::Value)
    ensures
        json_of(r) == JsonValue::Object(members_of(o)),
{
    serde_json::Value::Object(o)
}

/// `serde_json::Map::new`: an object without members.
#[verifier::external_body]
pub(crate) fn object_new() -> (r: serde_json::Map<String, serde_json::Value>)
    ensures
        members_of(r) =~= Map::empty(),
{
    serde_json::Map::new()
}

/// `serde_json::Map::insert`: stores `v` under `k`, in place of a member that
/// was there under that key; the other members stay.
pub assume_specification[ serde_json::Map::<String, serde_json::Value>::insert ](
    o: &mut serde_json::Map<String, serde_json::Value>,
    k: String,
    v: serde_json::Value,
) -> (r: Option<serde_json::Value>)
    ensures
        members_of(*final(o)) == members_of(*old(o)).insert(k@, json_of(v)),
;

} // verus!
