//! The trusted boundary to the URL-validation capability.
//!
//! Fields that the service types as URLs are held by the library as plain
//! strings; when a response is decoded, each such field is run through the
//! `url` crate, which either rejects it or hands back its canonical
//! serialization. The canonical form is what the library stores, so that a
//! record's natural key compares the way the service's own normalization
//! sees it.

use vstd::prelude::*;

verus! {

/// What URL parsing makes of a string: `None` where the string is not a
/// valid URL, otherwise the canonical serialization. The result depends on
/// the string alone.
pub uninterp spec fn url_normal(s: Seq<char>) -> Option<Seq<char>>;

/// A string that is a valid URL already in canonical form.
pub open spec fn is_normal_url(s: Seq<char>) -> bool {
    url_normal(s) == Some(s)
}

/// Relies on `url::Url::parse` and the `Url`-to-`String` conversion: `parse`
/// accepts exactly the valid URLs, and the conversion writes the parsed
/// URL's canonical serialization.
#[verifier::external_body]
pub fn normalize_url(s: &str) -> (r: Option<String>)
    ensures
        r is Some <==> url_normal(s@) is Some,
        r matches Some(t) ==> Some(t@) == url_normal(s@),
{
    match url::Url::parse(s) {
        Ok(u) => Some(String::from(u)),
        Err(_) => None,
    }
}

} // verus!
