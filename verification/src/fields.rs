//! Typed access to the members of a JSON object, for reading and for
//! building one.

use crate::json::{json_get, json_null, json_of, members_of, JsonValue};
use crate::payload::{Encode, Payload};
use vstd::prelude::*;

verus! {

/// The member stored under `key`, when `j` is an object that has one.
pub open spec fn member(j: JsonValue, key: Seq<char>) -> Option<JsonValue> {
    match j {
        JsonValue::Object(o) => if o.contains_key(key) {
            Some(o[key])
        } else {
            None
        },
        _ => None,
    }
}

/// A required member of type `T`: `None` where `j` is no object, has no
/// member `key`, or the member does not have the shape of `T`.
pub open spec fn field_at<T: Payload>(j: JsonValue, key: Seq<char>) -> Option<<T as DeepView>::V> {
    match member(j, key) {
        Some(m) => T::decoded(m),
        None => None,
    }
}

/// An optional member of type `T`. A missing member and `null` both stand
/// for "absent", the inner `None`. The outer `None` means that the member is
/// there and does not have the shape of `T`.
pub open spec fn opt_field_at<T: Payload>(j: JsonValue, key: Seq<char>) -> Option<
    Option<<T as DeepView>::V>,
> {
    match member(j, key) {
        None | Some(JsonValue::Null) => Some(None),
        Some(m) => match T::decoded(m) {
            Some(x) => Some(Some(x)),
            None => None,
        },
    }
}

/// Reads a required member.
pub fn field<T: Payload>(v: &serde_json::Value, key: &str) -> (r: Option<T>)
    ensures
        r.deep_view() == field_at::<T>(json_of(*v), key@),
{
    let m = json_get(v, key)?;
    T::from_json(m)
}

/// Reads an optional member.
pub fn opt_field<T: Payload>(v: &serde_json::Value, key: &str) -> (r: Option<Option<T>>)
    ensures
        r.deep_view() == opt_field_at::<T>(json_of(*v), key@),
{
    match json_get(v, key) {
        None => Some(None),
        Some(m) => {
            if m.is_null() {
                Some(None)
            } else {
                let x = T::from_json(m)?;
                Some(Some(x))
            }
        },
    }
}

/// The document that stands for an optional value: `null` for "absent".
pub open spec fn opt_encoded<T: Encode>(x: Option<<T as DeepView>::V>) -> JsonValue {
    match x {
        Some(v) => T::encoded(v),
        None => JsonValue::Null,
    }
}

/// Stores a member under `key`, in place of one that was there.
pub fn put<T: Encode>(o: &mut serde_json::Map<String, serde_json::Value>, key: &str, x: &T)
    ensures
        members_of(*final(o)) == members_of(*old(o)).insert(key@, T::encoded(x.deep_view())),
{
    o.insert(key.to_owned(), x.to_json());
}

/// Stores an optional member under `key`, as `null` where it is absent.
pub fn put_opt<T: Encode>(
    o: &mut serde_json::Map<String, serde_json::Value>,
    key: &str,
    x: &Option<T>,
)
    ensures
        members_of(*final(o)) == members_of(*old(o)).insert(
            key@,
            opt_encoded::<T>(x.deep_view()),
        ),
{
    match x {
        Some(v) => {
            o.insert(key.to_owned(), v.to_json());
        },
        None => {
            o.insert(key.to_owned(), json_null());
        },
    }
}

} // verus!
