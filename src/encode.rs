use vstd::prelude::*;
use crate::decode::{list_of, list_or_empty, opt_view, opt_views, text_views, views, Decode};
use crate::json::{Json, JsonValue};

verus! {

/// A record that writes itself as a JSON document that decodes back to it.
pub trait Encode: Decode {
    /// The document that `m` is written as.
    spec fn encoded(m: Self::V) -> Json;

    fn encode(&self) -> (r: JsonValue)
        ensures
            r@ == Self::encoded(self@),
    ;

    /// Decoding what is written gives the record back.
    proof fn lemma_round_trip(m: Self::V)
        ensures
            Self::decoded(Self::encoded(m)) == Some(m),
    ;
}

/// The array that a list of records is written as.
pub open spec fn encoded_list<T: Encode>(s: Seq<T::V>) -> Json {
    Json::Array(s.map_values(|x: T::V| T::encoded(x)))
}

/// Decoding a written list of records gives the list back.
pub proof fn lemma_list_round_trip<T: Encode>(s: Seq<T::V>)
    ensures
        list_of::<T>(Some(encoded_list::<T>(s))) == Some(s),
        list_or_empty::<T>(Some(encoded_list::<T>(s))) == Some(s),
{
    let items = s.map_values(|x: T::V| T::encoded(x));
    assert forall|i: int| 0 <= i < items.len() implies (#[trigger] T::decoded(items[i])) == Some(s[i]) by {
        T::lemma_round_trip(s[i]);
    }
    assert(items.map_values(|x: Json| T::decoded(x)->0) =~= s);
}

/// Writes a list of records as an array.
pub fn encode_list<T: Encode>(items: &Vec<T>) -> (r: JsonValue)
    ensures
        r@ == encoded_list::<T>(views(items@)),
{
    let mut out: Vec<JsonValue> = Vec::new();
    let mut i: usize = 0;
    while i < items.len()
        invariant
            i <= items@.len(),
            out@.len() == i,
            forall|k: int| 0 <= k < i ==> (#[trigger] out@[k])@ == T::encoded(items@[k]@),
        decreases items.len() - i,
    {
        out.push(items[i].encode());
        i = i + 1;
    }
    let r = JsonValue::Array(out);
    proof {
        reveal_with_fuel(<JsonValue as View>::view, 2);
    }
    assert(r@->Array_0 =~= encoded_list::<T>(views(items@))->Array_0);
    r
}

/// Writes a list that may be absent; absent is `null`.
pub fn encode_list_option<T: Encode>(items: &Option<Vec<T>>) -> (r: JsonValue)
    ensures
        r@ == (match opt_views(*items) {
            Some(s) => encoded_list::<T>(s),
            None => Json::Null,
        }),
{
    match items {
        Some(v) => encode_list(v),
        None => JsonValue::Null,
    }
}

/// Writes a record that may be absent; absent is `null`.
pub fn encode_record_option<T: Encode>(x: &Option<T>) -> (r: JsonValue)
    ensures
        r@ == (match opt_view(*x) {
            Some(v) => T::encoded(v),
            None => Json::Null,
        }),
{
    match x {
        Some(v) => v.encode(),
        None => JsonValue::Null,
    }
}

/// Writes a string that may be absent; absent is `null`.
pub fn encode_text_option(x: &Option<String>) -> (r: JsonValue)
    ensures
        r@ == (match text_views(*x) {
            Some(s) => Json::Str(s),
            None => Json::Null,
        }),
{
    match x {
        Some(s) => JsonValue::Str(s.clone()),
        None => JsonValue::Null,
    }
}

/// Writes a number that may be absent; absent is `null`.
pub fn encode_u8_option(x: Option<u8>) -> (r: JsonValue)
    ensures
        r@ == (match x {
            Some(n) => Json::Number(Some(n as u64)),
            None => Json::Null,
        }),
{
    match x {
        Some(n) => JsonValue::Number(Some(n as u64)),
        None => JsonValue::Null,
    }
}

} // verus!
