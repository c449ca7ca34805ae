//! What a type needs in order to be read out of a JSON document and written
//! into one, and the shapes of the scalar types, of strings and of sequences.

use crate::json::{
    json_array, json_bool, json_items, json_of, json_text, json_u64, JsonNumber, JsonValue,
};
use vstd::prelude::*;

verus! {

/// A type with a JSON shape: a rule that tells the documents that stand for a
/// value of the type from those that do not.
pub trait Payload: Sized + DeepView {
    /// The value that `j` stands for, or `None` where `j` does not have the
    /// shape of this type.
    spec fn decoded(j: JsonValue) -> Option<<Self as DeepView>::V>;

    /// Decodes a parsed document: `Some` exactly for a document of this
    /// type's shape, holding the value that the document stands for.
    fn from_json(v: &serde_json::Value) -> (r: Option<Self>)
        ensures
            r.deep_view() == Self::decoded(json_of(*v)),
    ;
}

/// A payload that can also be written as a JSON document, such that reading
/// the document gives the value back.
pub trait Encode: Payload {
    /// The document that stands for `x`.
    spec fn encoded(x: <Self as DeepView>::V) -> JsonValue;

    /// Builds the document that stands for `self`.
    fn to_json(&self) -> (v: serde_json::Value)
        ensures
            json_of(v) == Self::encoded(self.deep_view()),
    ;

    /// Decoding the document that stands for `x` gives `x`.
    proof fn lemma_decodes_back(x: <Self as DeepView>::V)
        ensures
            Self::decoded(Self::encoded(x)) == Some(x),
    ;
}

/// A boolean is a JSON `true` or `false`.
impl Payload for bool {
    open spec fn decoded(j: JsonValue) -> Option<bool> {
        match j {
            JsonValue::Bool(b) => Some(b),
            _ => None,
        }
    }

    fn from_json(v: &serde_json::Value) -> (r: Option<bool>) {
        v.as_bool()
    }
}

impl Encode for bool {
    open spec fn encoded(x: bool) -> JsonValue {
        JsonValue::Bool(x)
    }

    fn to_json(&self) -> (v: serde_json::Value) {
        json_bool(*self)
    }

    proof fn lemma_decodes_back(x: bool) {
    }
}

/// A `u32` is a non-negative JSON integer of at most 32 bits.
impl Payload for u32 {
    open spec fn decoded(j: JsonValue) -> Option<u32> {
        match j {
            JsonValue::Number(JsonNumber::Unsigned(n)) => if n <= u32::MAX {
                Some(n as u32)
            } else {
                None
            },
            _ => None,
        }
    }

    fn from_json(v: &serde_json::Value) -> (r: Option<u32>) {
        let n = v.as_u64()?;
        if n <= 0xffff_ffff {
            Some(n as u32)
        } else {
            None
        }
    }
}

impl Encode for u32 {
    open spec fn encoded(x: u32) -> JsonValue {
        JsonValue::Number(JsonNumber::Unsigned(x as u64))
    }

    fn to_json(&self) -> (v: serde_json::Value) {
        json_u64(*self as u64)
    }

    proof fn lemma_decodes_back(x: u32) {
    }
}

/// A `usize` is a non-negative JSON integer that fits the platform's word.
impl Payload for usize {
    open spec fn decoded(j: JsonValue) -> Option<usize> {
        match j {
            JsonValue::Number(JsonNumber::Unsigned(n)) => if n <= usize::MAX {
                Some(n as usize)
            } else {
                None
            },
            _ => None,
        }
    }

    fn from_json(v: &serde_json::Value) -> (r: Option<usize>) {
        let n = v.as_u64()?;
        if n <= usize::MAX as u64 {
            Some(n as usize)
        } else {
            None
        }
    }
}

impl Encode for usize {
    open spec fn encoded(x: usize) -> JsonValue {
        JsonValue::Number(JsonNumber::Unsigned(x as u64))
    }

    fn to_json(&self) -> (v: serde_json::Value) {
        json_u64(*self as u64)
    }

    proof fn lemma_decodes_back(x: usize) {
    }
}

/// A `String` is a JSON string.
impl Payload for String {
    open spec fn decoded(j: JsonValue) -> Option<Seq<char>> {
        match j {
            JsonValue::Text(s) => Some(s),
            _ => None,
        }
    }

    fn from_json(v: &serde_json::Value) -> (r: Option<String>) {
        let s = v.as_str()?;
        Some(s.to_owned())
    }
}

impl Encode for String {
    open spec fn encoded(x: Seq<char>) -> JsonValue {
        JsonValue::Text(x)
    }

    fn to_json(&self) -> (v: serde_json::Value) {
        json_text(self.clone())
    }

    proof fn lemma_decodes_back(x: Seq<char>) {
    }
}

/// Whether every item of `items` has the shape of `T`.
pub open spec fn all_decode<T: Payload>(items: Seq<JsonValue>) -> bool {
    forall|i: int| 0 <= i < items.len() ==> (#[trigger] T::decoded(items[i])) is Some
}

/// The values that the items stand for, in the order of the items.
pub open spec fn decoded_items<T: Payload>(items: Seq<JsonValue>) -> Seq<<T as DeepView>::V> {
    Seq::new(items.len(), |i: int| T::decoded(items[i]).unwrap())
}

/// A sequence is a JSON array whose items all have the shape of `T`; the
/// order of the items is kept.
impl<T: Payload> Payload for Vec<T> {
    open spec fn decoded(j: JsonValue) -> Option<Seq<<T as DeepView>::V>> {
        match j {
            JsonValue::Array(items) => if all_decode::<T>(items) {
                Some(decoded_items::<T>(items))
            } else {
                None
            },
            _ => None,
        }
    }

    fn from_json(v: &serde_json::Value) -> (r: Option<Vec<T>>) {
        let items = v.as_array()?;
        let ghost model = json_items(items@);
        let mut out: Vec<T> = Vec::new();
        let mut i: usize = 0;
        while i < items.len()
            invariant
                i <= items.len(),
                model == json_items(items@),
                json_of(*v) == JsonValue::Array(model),
                out.len() == i,
                forall|k: int|
                    0 <= k < i ==> #[trigger] T::decoded(model[k]) == Some(out[k].deep_view()),
            decreases items.len() - i,
        {
            match T::from_json(&items[i]) {
                Some(item) => {
                    out.push(item);
                },
                None => {
                    assert(T::decoded(model[i as int]) is None);
                    return None;
                },
            }
            i += 1;
        }
        assert(all_decode::<T>(model));
        assert(out.deep_view() =~= decoded_items::<T>(model));
        Some(out)
    }
}

/// The documents that stand for the values of `xs`, in the order of `xs`.
pub open spec fn encoded_items<T: Encode>(xs: Seq<<T as DeepView>::V>) -> Seq<JsonValue> {
    Seq::new(xs.len(), |i: int| T::encoded(xs[i]))
}

impl<T: Encode> Encode for Vec<T> {
    open spec fn encoded(x: Seq<<T as DeepView>::V>) -> JsonValue {
        JsonValue::Array(encoded_items::<T>(x))
    }

    fn to_json(&self) -> (v: serde_json::Value) {
        let mut items: Vec<serde_json::Value> = Vec::new();
        let mut i: usize = 0;
        while i < self.len()
            invariant
                i <= self.len(),
                items.len() == i,
                forall|k: int|
                    0 <= k < i ==> json_of(#[trigger] items[k]) == T::encoded(self[k].deep_view()),
            decreases self.len() - i,
        {
            items.push(self[i].to_json());
            i += 1;
        }
        assert(json_items(items@) =~= encoded_items::<T>(self.deep_view()));
        json_array(items)
    }

    proof fn lemma_decodes_back(x: Seq<<T as DeepView>::V>) {
        let items = encoded_items::<T>(x);
        assert forall|i: int| 0 <= i < items.len() implies (#[trigger] T::decoded(items[i]))
            == Some(x[i]) by {
            T::lemma_decodes_back(x[i]);
        }
        assert(all_decode::<T>(items));
        assert(decoded_items::<T>(items) =~= x);
    }
}

} // verus!
