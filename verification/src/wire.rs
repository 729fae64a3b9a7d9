//! Reading typed fields out of a decoded JSON document.
//!
//! Each helper pairs a spec function on the [`Json`](crate::json::Json)
//! model with an executable reader whose contract says exactly when the
//! field is there and what value it carries. Optional fields follow the
//! wire convention of the service: a missing key and an explicit `null`
//! both mean absent. Fields typed as URLs are validated and stored in
//! canonical form.

use vstd::prelude::*;

verus! {

use crate::error::ClientError;
use crate::json::Json;
use crate::json::json_field;
use crate::json::json_get;
use crate::json::json_of;
use crate::json::str_field;
use crate::json::u64_field;
use crate::urls::normalize_url;
use crate::urls::url_normal;

/// The view of an optional string.
pub open spec fn opt_view(o: Option<String>) -> Option<Seq<char>> {
    match o {
        Some(s) => Some(s@),
        None => None,
    }
}

/// The views of a vector of strings.
pub open spec fn strings_view(ss: Seq<String>) -> Seq<Seq<char>> {
    ss.map_values(|s: String| s@)
}

/// An optional string field: a missing key or `null` is an absent value,
/// a string is a present one, anything else is a shape mismatch (`None`).
pub open spec fn spec_opt_str(j: Json, key: Seq<char>) -> Option<Option<Seq<char>>> {
    match json_field(j, key) {
        None => Some(None),
        Some(Json::Null) => Some(None),
        Some(Json::Str(s)) => Some(Some(s)),
        Some(_) => None,
    }
}

/// A required URL field: a string that parses as a URL, in canonical form.
pub open spec fn spec_url_field(j: Json, key: Seq<char>) -> Option<Seq<char>> {
    match str_field(j, key) {
        Some(s) => url_normal(s),
        None => None,
    }
}

/// An optional URL field.
pub open spec fn spec_opt_url(j: Json, key: Seq<char>) -> Option<Option<Seq<char>>> {
    match spec_opt_str(j, key) {
        Some(None) => Some(None),
        Some(Some(s)) => match url_normal(s) {
            Some(u) => Some(Some(u)),
            None => None,
        },
        None => None,
    }
}

/// A required counter field: an unsigned number that fits a `u16`.
pub open spec fn spec_u16_field(j: Json, key: Seq<char>) -> Option<u16> {
    match u64_field(j, key) {
        Some(n) => if n <= 65535 {
            Some(n as u16)
        } else {
            None
        },
        None => None,
    }
}

/// Reads a required string field.
pub fn get_str_field(v: &serde_json::Value, key: &str) -> (r: Result<String, ClientError>)
    ensures
        match str_field(json_of(*v), key@) {
            Some(s) => r matches Ok(t) && t@ == s,
            None => r matches Err(e) && e is UnexpectedResponse,
        },
{
    match json_get(v, key) {
        Some(f) => match f.as_str() {
            Some(s) => Ok(s.to_owned()),
            None => Err(ClientError::UnexpectedResponse),
        },
        None => Err(ClientError::UnexpectedResponse),
    }
}

/// Reads an optional string field.
pub fn get_opt_str_field(v: &serde_json::Value, key: &str) -> (r: Result<
    Option<String>,
    ClientError,
>)
    ensures
        match spec_opt_str(json_of(*v), key@) {
            Some(o) => r matches Ok(t) && opt_view(t) == o,
            None => r matches Err(e) && e is UnexpectedResponse,
        },
{
    match json_get(v, key) {
        Some(f) => {
            if f.is_null() {
                Ok(None)
            } else {
                match f.as_str() {
                    Some(s) => Ok(Some(s.to_owned())),
                    None => Err(ClientError::UnexpectedResponse),
                }
            }
        },
        None => Ok(None),
    }
}

/// Reads a required URL field; the result is the canonical form.
pub fn get_url_field(v: &serde_json::Value, key: &str) -> (r: Result<String, ClientError>)
    ensures
        match spec_url_field(json_of(*v), key@) {
            Some(u) => r matches Ok(t) && t@ == u,
            None => r matches Err(e) && e is UnexpectedResponse,
        },
{
    match json_get(v, key) {
        Some(f) => match f.as_str() {
            Some(s) => match normalize_url(s) {
                Some(u) => Ok(u),
                None => Err(ClientError::UnexpectedResponse),
            },
            None => Err(ClientError::UnexpectedResponse),
        },
        None => Err(ClientError::UnexpectedResponse),
    }
}

/// Reads an optional URL field; a present value is the canonical form.
pub fn get_opt_url_field(v: &serde_json::Value, key: &str) -> (r: Result<
    Option<String>,
    ClientError,
>)
    ensures
        match spec_opt_url(json_of(*v), key@) {
            Some(o) => r matches Ok(t) && opt_view(t) == o,
            None => r matches Err(e) && e is UnexpectedResponse,
        },
{
    match json_get(v, key) {
        Some(f) => {
            if f.is_null() {
                Ok(None)
            } else {
                match f.as_str() {
                    Some(s) => match normalize_url(s) {
                        Some(u) => Ok(Some(u)),
                        None => Err(ClientError::UnexpectedResponse),
                    },
                    None => Err(ClientError::UnexpectedResponse),
                }
            }
        },
        None => Ok(None),
    }
}

/// Reads a required unsigned number field.
pub fn get_u64_field(v: &serde_json::Value, key: &str) -> (r: Result<u64, ClientError>)
    ensures
        match u64_field(json_of(*v), key@) {
            Some(n) => r matches Ok(m) && m == n,
            None => r matches Err(e) && e is UnexpectedResponse,
        },
{
    match json_get(v, key) {
        Some(f) => match f.as_u64() {
            Some(n) => Ok(n),
            None => Err(ClientError::UnexpectedResponse),
        },
        None => Err(ClientError::UnexpectedResponse),
    }
}

/// Reads a required counter field that must fit a `u16`.
pub fn get_u16_field(v: &serde_json::Value, key: &str) -> (r: Result<u16, ClientError>)
    ensures
        match spec_u16_field(json_of(*v), key@) {
            Some(n) => r matches Ok(m) && m == n,
            None => r matches Err(e) && e is UnexpectedResponse,
        },
{
    match json_get(v, key) {
        Some(f) => match f.as_u64() {
            Some(n) => {
                if n <= 65535 {
                    Ok(n as u16)
                } else {
                    Err(ClientError::UnexpectedResponse)
                }
            },
            None => Err(ClientError::UnexpectedResponse),
        },
        None => Err(ClientError::UnexpectedResponse),
    }
}

/// The URL list a sequence of JSON values denotes: every element must be a
/// string that parses as a URL; each comes out in canonical form.
pub open spec fn spec_url_list(elems: Seq<Json>) -> Option<Seq<Seq<char>>>
    decreases elems.len(),
{
    if elems.len() == 0 {
        Some(Seq::empty())
    } else {
        match (spec_url_list(elems.take(elems.len() - 1)), elems.last()) {
            (Some(us), Json::Str(s)) => match url_normal(s) {
                Some(u) => Some(us.push(u)),
                None => None,
            },
            _ => None,
        }
    }
}

/// The URL list a JSON document denotes, if it is an array of URL strings.
pub open spec fn spec_url_array(j: Json) -> Option<Seq<Seq<char>>> {
    match j {
        Json::Arr(elems) => spec_url_list(elems),
        _ => None,
    }
}

/// A URL list with an element that is no URL string denotes nothing.
proof fn lemma_url_list_fail(elems: Seq<Json>, i: int)
    requires
        0 <= i < elems.len(),
        match elems[i] {
            Json::Str(s) => url_normal(s) is None,
            _ => true,
        },
    ensures
        spec_url_list(elems) is None,
    decreases elems.len(),
{
    if i < elems.len() - 1 {
        lemma_url_list_fail(elems.take(elems.len() - 1), i);
    }
}

/// Decodes a JSON array of URL strings; each element comes out in
/// canonical form, in the order the document lists them.
pub fn decode_url_array(v: &serde_json::Value) -> (r: Result<Vec<String>, ClientError>)
    ensures
        match spec_url_array(json_of(*v)) {
            Some(us) => r matches Ok(o) && strings_view(o@) == us,
            None => r matches Err(e) && e is UnexpectedResponse,
        },
{
    let arr = match v.as_array() {
        Some(a) => a,
        None => {
            return Err(ClientError::UnexpectedResponse);
        },
    };
    let ghost elems = json_of(*v)->Arr_0;
    let mut out: Vec<String> = Vec::new();
    let mut i: usize = 0;
    while i < arr.len()
        invariant
            i <= arr.len(),
            arr@.len() == elems.len(),
            forall|k: int| 0 <= k < elems.len() ==> json_of(#[trigger] arr@[k]) == elems[k],
            json_of(*v) == Json::Arr(elems),
            spec_url_list(elems.take(i as int)) == Some(strings_view(out@)),
        decreases arr.len() - i,
    {
        let u = match arr[i].as_str() {
            Some(s) => match normalize_url(s) {
                Some(u) => u,
                None => {
                    proof {
                        lemma_url_list_fail(elems, i as int);
                    }
                    return Err(ClientError::UnexpectedResponse);
                },
            },
            None => {
                proof {
                    lemma_url_list_fail(elems, i as int);
                }
                return Err(ClientError::UnexpectedResponse);
            },
        };
        let ghost prev = out@;
        out.push(u);
        proof {
            assert(elems.take(i + 1 as int).take(i as int) =~= elems.take(i as int));
            assert(elems.take(i + 1 as int).last() == elems[i as int]);
            assert(strings_view(out@) =~= strings_view(prev).push(out@.last()@));
            assert(spec_url_list(elems.take(i + 1 as int)) == Some(strings_view(out@)));
        }
        i = i + 1;
    }
    proof {
        assert(elems.take(arr.len() as int) =~= elems);
    }
    Ok(out)
}

} // verus!
