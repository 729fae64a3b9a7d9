//! The library's model of JSON documents, and the trusted boundary to the
//! JSON codec.
//!
//! Responses from the service arrive as JSON text. The text is handed to
//! `serde_json`, which turns it into a `serde_json::Value`; that value is
//! opaque to the verifier, so this module gives it a ghost model of type
//! [`Json`] through the uninterpreted function [`json_of`], and every
//! accessor the library calls is specified against that model. The verified
//! resource modules then map the model onto typed records.

use vstd::prelude::*;

verus! {

/// Ghost model of a JSON document.
///
/// Numbers that the codec represents as an exact unsigned 64-bit integer
/// are modeled as `UInt`; every other number (negative or fractional) is
/// modeled as `NumOther`, since the library never reads such a number.
/// An object is a sequence of key/value entries with distinct keys.
pub enum Json {
    Null,
    Bool(bool),
    UInt(u64),
    NumOther,
    Str(Seq<char>),
    Arr(Seq<Json>),
    Obj(Seq<(Seq<char>, Json)>),
}

/// The value stored under `key` in an entry list: the first entry whose key
/// matches.
pub open spec fn obj_lookup(entries: Seq<(Seq<char>, Json)>, key: Seq<char>) -> Option<Json>
    decreases entries.len(),
{
    if entries.len() == 0 {
        None
    } else if entries[0].0 == key {
        Some(entries[0].1)
    } else {
        obj_lookup(entries.drop_first(), key)
    }
}

/// The value stored under `key`, if `j` is an object that has the key.
pub open spec fn json_field(j: Json, key: Seq<char>) -> Option<Json> {
    match j {
        Json::Obj(entries) => obj_lookup(entries, key),
        _ => None,
    }
}

/// The string stored under `key`, if `j` is an object holding a string
/// there.
pub open spec fn str_field(j: Json, key: Seq<char>) -> Option<Seq<char>> {
    match json_field(j, key) {
        Some(Json::Str(s)) => Some(s),
        _ => None,
    }
}

/// The unsigned integer stored under `key`, if `j` is an object holding one
/// there.
pub open spec fn u64_field(j: Json, key: Seq<char>) -> Option<u64> {
    match json_field(j, key) {
        Some(Json::UInt(n)) => Some(n),
        _ => None,
    }
}

/// Looking a key up in an entry list finds the first entry that carries
/// it.
pub proof fn lemma_obj_lookup_at(entries: Seq<(Seq<char>, Json)>, key: Seq<char>, i: int)
    requires
        0 <= i < entries.len(),
        forall|j: int| 0 <= j < i ==> (#[trigger] entries[j]).0 != key,
        entries[i].0 == key,
    ensures
        obj_lookup(entries, key) == Some(entries[i].1),
    decreases i,
{
    if i > 0 {
        let rest = entries.drop_first();
        assert(forall|j: int| 0 <= j < i - 1 ==> (#[trigger] rest[j]).0 == entries[j + 1].0);
        assert(rest[i - 1].0 == key);
        lemma_obj_lookup_at(rest, key, i - 1);
    }
}

#[verifier::external_type_specification]
#[verifier::external_body]
pub struct ExJsonValue(serde_json::Value);

#[verifier::external_type_specification]
#[verifier::external_body]
pub struct ExJsonError(serde_json::Error);

/// The model of a `serde_json::Value`: the document it holds.
pub uninterp spec fn json_of(v: serde_json::Value) -> Json;

/// The document that the JSON codec reads from a piece of text, or `None`
/// where the text is not valid JSON. Parsing depends on the text alone.
pub uninterp spec fn parsed_json(s: Seq<char>) -> Option<Json>;

/// Relies on `serde_json::from_str::<Value>`: it returns `Ok` exactly on
/// valid JSON text, and the returned value holds the document the text
/// denotes.
#[verifier::external_body]
pub fn parse_json(s: &str) -> (r: Result<serde_json::Value, serde_json::Error>)
    ensures
        r is Ok <==> parsed_json(s@) is Some,
        r matches Ok(v) ==> Some(json_of(v)) == parsed_json(s@),
{
    serde_json::from_str::<serde_json::Value>(s)
}

/// Relies on `serde_json::Value::as_str`: the string a string value holds,
/// `None` for every other kind of value.
pub assume_specification[ serde_json::Value::as_str ](v: &serde_json::Value) -> (r: Option<&str>)
    ensures
        r is Some <==> json_of(*v) is Str,
        r matches Some(s) ==> json_of(*v) == Json::Str(s@),
;

/// Relies on `serde_json::Value::as_u64`: the exact unsigned 64-bit value a
/// number holds, `None` for negative or fractional numbers and for every
/// other kind of value.
pub assume_specification[ serde_json::Value::as_u64 ](v: &serde_json::Value) -> (r: Option<u64>)
    ensures
        r is Some <==> json_of(*v) is UInt,
        r matches Some(n) ==> json_of(*v) == Json::UInt(n),
;

/// Relies on `serde_json::Value::as_array`: the element vector of an array
/// value, `None` for every other kind of value.
pub assume_specification[ serde_json::Value::as_array ](v: &serde_json::Value) -> (r: Option<
    &Vec<serde_json::Value>,
>)
    ensures
        r is Some <==> json_of(*v) is Arr,
        r matches Some(a) ==> {
            &&& json_of(*v) matches Json::Arr(elems)
            &&& a@.len() == elems.len()
            &&& forall|i: int| 0 <= i < elems.len() ==> json_of(#[trigger] a@[i]) == elems[i]
        },
;

/// Relies on `serde_json::Value::is_null`: whether the value is JSON null.
pub assume_specification[ serde_json::Value::is_null ](v: &serde_json::Value) -> (r: bool)
    ensures
        r == (json_of(*v) is Null),
;

/// Relies on `serde_json::Value::get` with a string key: for an object, the
/// value stored under the key; `None` where the key is missing or the value
/// is not an object.
#[verifier::external_body]
pub fn json_get<'a>(v: &'a serde_json::Value, key: &str) -> (r: Option<&'a serde_json::Value>)
    ensures
        r is Some <==> json_field(json_of(*v), key@) is Some,
        r matches Some(w) ==> Some(json_of(*w)) == json_field(json_of(*v), key@),
{
    v.get(key)
}

} // verus!
