//! Suggestions: podcasts the service proposes to the user.
//!
//! A suggestion is compared, ordered and hashed by its feed URL alone.
//! The one operation asks the service for at most `max_results`
//! suggestions; the client passes the bound through verbatim in the URL
//! and returns exactly the records the service sends, in their order —
//! any truncation is the server's.

use vstd::prelude::*;

verus! {

use core::cmp::Ordering;
use std::collections::hash_map::DefaultHasher;
use std::hash::Hasher;
use vstd::std_specs::cmp::PartialEqSpec;
use vstd::std_specs::cmp::PartialOrdSpec;
use vstd::std_specs::hash::DefaultHasherAdditionalSpecFns;
use vstd::utf8::encode_utf8;
use crate::client::AuthenticatedClient;
use crate::client::DeviceClient;
use crate::error::ClientError;
use crate::json::Json;
use crate::json::json_of;
use crate::json::lemma_obj_lookup_at;
use crate::json::parse_json;
use crate::json::parsed_json;
use crate::json::str_field;
use crate::order::cmp_str;
use crate::order::lex_cmp;
use crate::order::lemma_lex_cmp_equal_iff;
use crate::subscription::opt_str_json;
use crate::subscription::opt_json_str_text;
use crate::text::append_json_str;
use crate::text::append_u64;
use crate::text::dec_str;
use crate::text::json_str;
use crate::urls::is_normal_url;
use crate::wire::get_opt_url_field;
use crate::wire::get_str_field;
use crate::wire::get_u16_field;
use crate::wire::get_url_field;
use crate::wire::opt_view;
use crate::wire::spec_opt_url;
use crate::wire::spec_u16_field;
use crate::wire::spec_url_field;

/// The ghost state of a [`Suggestion`].
pub struct SuggestionView {
    pub website: Seq<char>,
    pub mygpo_link: Seq<char>,
    pub description: Seq<char>,
    pub subscribers: u16,
    pub title: Seq<char>,
    pub url: Seq<char>,
    pub subscribers_last_week: u16,
    pub logo_url: Option<Seq<char>>,
}

/// A podcast suggestion.
///
/// Identity — equality, ordering, hashing — goes by the feed URL alone;
/// the other fields are display metadata.
#[derive(Clone, Debug, Eq)]
pub struct Suggestion {
    /// Website of the podcast, in canonical form.
    pub website: String,
    /// Service-internal link for the podcast, in canonical form.
    pub mygpo_link: String,
    /// Description of the podcast.
    pub description: String,
    /// Number of subscribers on the service.
    pub subscribers: u16,
    /// Title of the podcast.
    pub title: String,
    /// Feed URL, in canonical form: the natural key.
    pub url: String,
    /// Number of subscribers on the service one week before.
    pub subscribers_last_week: u16,
    /// URL to the podcast's logo.
    pub logo_url: Option<String>,
}

impl View for Suggestion {
    type V = SuggestionView;

    open spec fn view(&self) -> SuggestionView {
        SuggestionView {
            website: self.website@,
            mygpo_link: self.mygpo_link@,
            description: self.description@,
            subscribers: self.subscribers,
            title: self.title@,
            url: self.url@,
            subscribers_last_week: self.subscribers_last_week,
            logo_url: opt_view(self.logo_url),
        }
    }
}

impl PartialEq for Suggestion {
    fn eq(&self, other: &Self) -> (r: bool) {
        crate::order::str_eq(self.url.as_str(), other.url.as_str())
    }
}

impl vstd::std_specs::cmp::PartialEqSpecImpl for Suggestion {
    open spec fn obeys_eq_spec() -> bool {
        true
    }

    open spec fn eq_spec(&self, other: &Self) -> bool {
        self.url@ == other.url@
    }
}

impl PartialOrd for Suggestion {
    fn partial_cmp(&self, other: &Self) -> (r: Option<Ordering>) {
        Some(cmp_str(self.url.as_str(), other.url.as_str()))
    }
}

impl vstd::std_specs::cmp::PartialOrdSpecImpl for Suggestion {
    open spec fn obeys_partial_cmp_spec() -> bool {
        true
    }

    open spec fn partial_cmp_spec(&self, other: &Self) -> Option<Ordering> {
        Some(lex_cmp(self.url@, other.url@))
    }
}

impl Suggestion {
    /// Feeds the natural key — the feed URL alone — to the hasher, as one
    /// write of its UTF-8 bytes. Records with equal feed URLs drive a
    /// hasher to equal states.
    pub fn hash(&self, state: &mut DefaultHasher)
        ensures
            final(state)@ == old(state)@.push(encode_utf8(self.url@)),
    {
        state.write(self.url.as_str().as_bytes());
    }

    /// Renders as `"<title>: <description> <<url>>"`, like a podcast.
    pub fn display_string(&self) -> (r: String)
        ensures
            r@ == spec_suggestion_display(self@),
    {
        let mut out = self.title.clone();
        out.append(": ");
        out.append(self.description.as_str());
        out.append(" <");
        out.append(self.url.as_str());
        out.append(">");
        proof {
            assert(out@ =~= spec_suggestion_display(self@));
        }
        out
    }

    /// Writes the record as the JSON object the wire format uses.
    pub fn to_json_string(&self) -> (r: String)
        ensures
            r@ == spec_suggestion_json_text(self@),
    {
        let mut out = String::from_str("{\"website\":");
        append_json_str(&mut out, self.website.as_str());
        out.append(",\"mygpo_link\":");
        append_json_str(&mut out, self.mygpo_link.as_str());
        out.append(",\"description\":");
        append_json_str(&mut out, self.description.as_str());
        out.append(",\"subscribers\":");
        append_u64(&mut out, self.subscribers as u64);
        out.append(",\"title\":");
        append_json_str(&mut out, self.title.as_str());
        out.append(",\"url\":");
        append_json_str(&mut out, self.url.as_str());
        out.append(",\"subscribers_last_week\":");
        append_u64(&mut out, self.subscribers_last_week as u64);
        out.append(",\"logo_url\":");
        match &self.logo_url {
            Some(s) => {
                append_json_str(&mut out, s.as_str());
            },
            None => {
                out.append("null");
            },
        }
        out.append("}");
        proof {
            assert(out@ =~= spec_suggestion_json_text(self@));
        }
        out
    }
}

/// How a suggestion renders for display.
pub open spec fn spec_suggestion_display(s: SuggestionView) -> Seq<char> {
    s.title + ": "@ + s.description + " <"@ + s.url + ">"@
}

/// The JSON text of a suggestion record, fields in declaration order.
pub open spec fn spec_suggestion_json_text(s: SuggestionView) -> Seq<char> {
    "{\"website\":"@ + json_str(s.website) + ",\"mygpo_link\":"@ + json_str(s.mygpo_link)
        + ",\"description\":"@ + json_str(s.description) + ",\"subscribers\":"@ + dec_str(
        s.subscribers as int,
    ) + ",\"title\":"@ + json_str(s.title) + ",\"url\":"@ + json_str(s.url)
        + ",\"subscribers_last_week\":"@ + dec_str(s.subscribers_last_week as int)
        + ",\"logo_url\":"@ + opt_json_str_text(s.logo_url) + "}"@
}

/// Suggestions that share a feed URL are the same entity: they are equal,
/// they order as `Equal`, and a hasher fed either record reaches the same
/// state, so their hashes agree.
pub proof fn lemma_suggestion_same_key(a: Suggestion, b: Suggestion, s0: Seq<Seq<u8>>)
    requires
        a.url@ == b.url@,
    ensures
        a.eq_spec(&b),
        a.partial_cmp_spec(&b) == Some(Ordering::Equal),
        DefaultHasher::spec_finish(s0.push(encode_utf8(a.url@))) == DefaultHasher::spec_finish(
            s0.push(encode_utf8(b.url@)),
        ),
{
    lemma_lex_cmp_equal_iff(a.url@, b.url@);
}

/// Suggestions with different feed URLs are different entities: they are
/// not equal, and they order exactly as their feed URLs order
/// lexicographically — never as `Equal`.
pub proof fn lemma_suggestion_distinct_key(a: Suggestion, b: Suggestion)
    requires
        a.url@ != b.url@,
    ensures
        !a.eq_spec(&b),
        a.partial_cmp_spec(&b) == Some(lex_cmp(a.url@, b.url@)),
        a.partial_cmp_spec(&b) != Some(Ordering::Equal),
{
    lemma_lex_cmp_equal_iff(a.url@, b.url@);
}

/// The ghost model of a suggestion record as an object on the wire.
pub open spec fn suggestion_json(s: SuggestionView) -> Json {
    Json::Obj(
        seq![
            ("website"@, Json::Str(s.website)),
            ("mygpo_link"@, Json::Str(s.mygpo_link)),
            ("description"@, Json::Str(s.description)),
            ("subscribers"@, Json::UInt(s.subscribers as u64)),
            ("title"@, Json::Str(s.title)),
            ("url"@, Json::Str(s.url)),
            ("subscribers_last_week"@, Json::UInt(s.subscribers_last_week as u64)),
            ("logo_url"@, opt_str_json(s.logo_url)),
        ],
    )
}

/// The suggestion a JSON document denotes, if it has the expected shape.
pub open spec fn spec_suggestion(j: Json) -> Option<SuggestionView> {
    match (spec_url_field(j, "website"@), spec_url_field(j, "mygpo_link"@), str_field(
        j,
        "description"@,
    ), spec_u16_field(j, "subscribers"@), str_field(j, "title"@), spec_url_field(j, "url"@),
    spec_u16_field(j, "subscribers_last_week"@), spec_opt_url(j, "logo_url"@)) {
        (
            Some(website),
            Some(mygpo_link),
            Some(description),
            Some(subscribers),
            Some(title),
            Some(url),
            Some(subscribers_last_week),
            Some(logo_url),
        ) => Some(
            SuggestionView {
                website,
                mygpo_link,
                description,
                subscribers,
                title,
                url,
                subscribers_last_week,
                logo_url,
            },
        ),
        _ => None,
    }
}

/// A suggestion record whose URL fields are in canonical form.
pub open spec fn suggestion_wf(s: SuggestionView) -> bool {
    &&& is_normal_url(s.website)
    &&& is_normal_url(s.mygpo_link)
    &&& is_normal_url(s.url)
    &&& (s.logo_url matches Some(u) ==> is_normal_url(u))
}

/// Decoding the wire object of a suggestion with canonical URL fields
/// yields the suggestion back, field for field.
pub proof fn lemma_suggestion_round_trip(s: SuggestionView)
    requires
        suggestion_wf(s),
    ensures
        spec_suggestion(suggestion_json(s)) == Some(s),
{
    reveal_strlit("website");
    reveal_strlit("mygpo_link");
    reveal_strlit("description");
    reveal_strlit("subscribers");
    reveal_strlit("title");
    reveal_strlit("url");
    reveal_strlit("subscribers_last_week");
    reveal_strlit("logo_url");
    assert("website"@.len() == 7);
    assert("mygpo_link"@.len() == 10);
    assert("description"@.len() == 11);
    assert("subscribers"@.len() == 11);
    assert("title"@.len() == 5);
    assert("url"@.len() == 3);
    assert("subscribers_last_week"@.len() == 21);
    assert("logo_url"@.len() == 8);
    assert("description"@[0] == 'd' && "subscribers"@[0] == 's');
    let entries = suggestion_json(s)->Obj_0;
    lemma_obj_lookup_at(entries, "website"@, 0);
    lemma_obj_lookup_at(entries, "mygpo_link"@, 1);
    lemma_obj_lookup_at(entries, "description"@, 2);
    lemma_obj_lookup_at(entries, "subscribers"@, 3);
    lemma_obj_lookup_at(entries, "title"@, 4);
    lemma_obj_lookup_at(entries, "url"@, 5);
    lemma_obj_lookup_at(entries, "subscribers_last_week"@, 6);
    lemma_obj_lookup_at(entries, "logo_url"@, 7);
}

/// Decodes one suggestion object.
pub fn decode_suggestion(v: &serde_json::Value) -> (r: Result<Suggestion, ClientError>)
    ensures
        match spec_suggestion(json_of(*v)) {
            Some(sv) => r matches Ok(s) && s@ == sv,
            None => r matches Err(e) && e is UnexpectedResponse,
        },
{
    let website = match get_url_field(v, "website") {
        Ok(s) => s,
        Err(e) => {
            return Err(e);
        },
    };
    let mygpo_link = match get_url_field(v, "mygpo_link") {
        Ok(s) => s,
        Err(e) => {
            return Err(e);
        },
    };
    let description = match get_str_field(v, "description") {
        Ok(s) => s,
        Err(e) => {
            return Err(e);
        },
    };
    let subscribers = match get_u16_field(v, "subscribers") {
        Ok(n) => n,
        Err(e) => {
            return Err(e);
        },
    };
    let title = match get_str_field(v, "title") {
        Ok(s) => s,
        Err(e) => {
            return Err(e);
        },
    };
    let url = match get_url_field(v, "url") {
        Ok(s) => s,
        Err(e) => {
            return Err(e);
        },
    };
    let subscribers_last_week = match get_u16_field(v, "subscribers_last_week") {
        Ok(n) => n,
        Err(e) => {
            return Err(e);
        },
    };
    let logo_url = match get_opt_url_field(v, "logo_url") {
        Ok(s) => s,
        Err(e) => {
            return Err(e);
        },
    };
    Ok(
        Suggestion {
            website,
            mygpo_link,
            description,
            subscribers,
            title,
            url,
            subscribers_last_week,
            logo_url,
        },
    )
}

/// The suggestion list a JSON array denotes: every element must be a
/// suggestion object.
pub open spec fn spec_suggestion_list(elems: Seq<Json>) -> Option<Seq<SuggestionView>>
    decreases elems.len(),
{
    if elems.len() == 0 {
        Some(Seq::empty())
    } else {
        match (spec_suggestion_list(elems.take(elems.len() - 1)), spec_suggestion(elems.last())) {
            (Some(ss), Some(s)) => Some(ss.push(s)),
            _ => None,
        }
    }
}

/// The suggestion list a JSON document denotes, if it is an array of
/// suggestion objects.
pub open spec fn spec_suggestions(j: Json) -> Option<Seq<SuggestionView>> {
    match j {
        Json::Arr(elems) => spec_suggestion_list(elems),
        _ => None,
    }
}

/// The views of a suggestion vector.
pub open spec fn suggestions_view(ss: Seq<Suggestion>) -> Seq<SuggestionView> {
    ss.map_values(|s: Suggestion| s@)
}

/// A list whose element fails to decode fails to decode as a whole.
proof fn lemma_suggestion_list_fail(elems: Seq<Json>, i: int)
    requires
        0 <= i < elems.len(),
        spec_suggestion(elems[i]) is None,
    ensures
        spec_suggestion_list(elems) is None,
    decreases elems.len(),
{
    if i < elems.len() - 1 {
        lemma_suggestion_list_fail(elems.take(elems.len() - 1), i);
    }
}

/// Decodes the response of the suggestions endpoint: a JSON array of
/// suggestion objects, kept in the order the service chose — the client
/// neither truncates nor reorders.
pub fn decode_suggestions(body: &str) -> (r: Result<Vec<Suggestion>, ClientError>)
    ensures
        match parsed_json(body@) {
            None => r matches Err(e) && e is Json,
            Some(j) => match spec_suggestions(j) {
                None => r matches Err(e) && e is UnexpectedResponse,
                Some(ss) => r matches Ok(v) && suggestions_view(v@) == ss,
            },
        },
{
    let parsed = match parse_json(body) {
        Ok(v) => v,
        Err(e) => {
            return Err(ClientError::Json(e));
        },
    };
    let arr = match parsed.as_array() {
        Some(a) => a,
        None => {
            return Err(ClientError::UnexpectedResponse);
        },
    };
    let ghost elems = json_of(parsed)->Arr_0;
    let mut out: Vec<Suggestion> = Vec::new();
    let mut i: usize = 0;
    while i < arr.len()
        invariant
            i <= arr.len(),
            arr@.len() == elems.len(),
            forall|k: int| 0 <= k < elems.len() ==> json_of(#[trigger] arr@[k]) == elems[k],
            json_of(parsed) == Json::Arr(elems),
            Some(json_of(parsed)) == parsed_json(body@),
            spec_suggestion_list(elems.take(i as int)) == Some(suggestions_view(out@)),
        decreases arr.len() - i,
    {
        match decode_suggestion(&arr[i]) {
            Ok(s) => {
                let ghost prev = out@;
                out.push(s);
                proof {
                    assert(elems.take(i + 1 as int).take(i as int) =~= elems.take(i as int));
                    assert(elems.take(i + 1 as int).last() == elems[i as int]);
                    assert(suggestions_view(out@) =~= suggestions_view(prev).push(out@.last()@));
                    assert(spec_suggestion_list(elems.take(i + 1 as int)) == Some(
                        suggestions_view(out@),
                    ));
                }
            },
            Err(e) => {
                proof {
                    lemma_suggestion_list_fail(elems, i as int);
                }
                return Err(e);
            },
        }
        i = i + 1;
    }
    proof {
        assert(elems.take(arr.len() as int) =~= elems);
    }
    Ok(out)
}

/// The URL of the suggestions endpoint: the requested maximum, passed
/// through verbatim as a decimal, stands in the path.
pub open spec fn spec_suggestions_url(max_results: u8) -> Seq<char> {
    "https://gpodder.net/suggestions/"@ + dec_str(max_results as int) + ".json"@
}

/// Builds the URL of the suggestions endpoint.
pub fn suggestions_url(max_results: u8) -> (r: String)
    ensures
        r@ == spec_suggestions_url(max_results),
{
    let mut out = String::from_str("https://gpodder.net/suggestions/");
    append_u64(&mut out, max_results as u64);
    out.append(".json");
    proof {
        assert(out@ =~= spec_suggestions_url(max_results));
    }
    out
}

/// Retrieving podcast suggestions.
pub trait RetrieveSuggestedPodcasts {
    /// Asks the service for at most `max_results` suggestions. The bound
    /// goes to the server verbatim; the returned list is the faithful
    /// decoding of some response text that parses as a suggestion-list
    /// document, in the server's order.
    fn retrieve_suggested_podcasts(&self, max_results: u8) -> (r: Result<
        Vec<Suggestion>,
        ClientError,
    >)
        ensures
            r matches Ok(ss) ==> exists|body: Seq<char>|
                #[trigger] parsed_json(body) is Some && spec_suggestions(
                    parsed_json(body).unwrap(),
                ) == Some(suggestions_view(ss@)),
    ;
}

impl RetrieveSuggestedPodcasts for AuthenticatedClient {
    fn retrieve_suggested_podcasts(&self, max_results: u8) -> (r: Result<
        Vec<Suggestion>,
        ClientError,
    >) {
        let url = suggestions_url(max_results);
        let body = match self.get(url.as_str()) {
            Ok(response) => response.1,
            Err(e) => {
                return Err(e);
            },
        };
        match decode_suggestions(body.as_str()) {
            Ok(ss) => {
                proof {
                    assert(parsed_json(body@) is Some && spec_suggestions(
                        parsed_json(body@).unwrap(),
                    ) == Some(suggestions_view(ss@)));
                }
                Ok(ss)
            },
            Err(e) => Err(e),
        }
    }
}

impl RetrieveSuggestedPodcasts for DeviceClient {
    fn retrieve_suggested_podcasts(&self, max_results: u8) -> (r: Result<
        Vec<Suggestion>,
        ClientError,
    >) {
        self.authenticated_client.retrieve_suggested_podcasts(max_results)
    }
}

} // verus!
