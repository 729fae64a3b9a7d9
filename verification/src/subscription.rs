//! Subscriptions: podcast records, subscription lists and subscription
//! deltas.
//!
//! A podcast is compared, ordered and hashed by its feed URL alone. The
//! operations here read a user's merged subscription list, read and
//! replace one device's list, and exchange deltas; request bodies are
//! framed and responses mapped by verified code.

use vstd::prelude::*;

verus! {

use core::cmp::Ordering;
use std::collections::hash_map::DefaultHasher;
use std::hash::Hasher;
use vstd::std_specs::cmp::PartialEqSpec;
use vstd::std_specs::cmp::PartialOrdSpec;
use vstd::std_specs::hash::DefaultHasherAdditionalSpecFns;
use vstd::utf8::encode_utf8;
use crate::client::AuthenticatedClient;
use crate::client::DeviceClient;
use crate::error::ClientError;
use crate::json::Json;
use crate::json::json_field;
use crate::json::json_get;
use crate::json::json_of;
use crate::json::lemma_obj_lookup_at;
use crate::json::parse_json;
use crate::json::parsed_json;
use crate::json::str_field;
use crate::json::u64_field;
use crate::order::cmp_str;
use crate::order::lex_cmp;
use crate::order::lemma_lex_cmp_equal_iff;
use crate::query::pairs_view;
use crate::text::append_debug_pair_list;
use crate::text::append_debug_str_list;
use crate::text::append_json_str;
use crate::text::append_json_str_array;
use crate::text::append_u64;
use crate::text::dec_str;
use crate::text::debug_pair_list;
use crate::text::debug_str_list;
use crate::text::json_str;
use crate::text::json_str_array;
use crate::text::u64_string;
use crate::urls::is_normal_url;
use crate::urls::normalize_url;
use crate::urls::url_normal;
use crate::wire::get_opt_str_field;
use crate::wire::get_opt_url_field;
use crate::wire::get_str_field;
use crate::wire::get_u16_field;
use crate::wire::get_u64_field;
use crate::wire::get_url_field;
use crate::wire::decode_url_array;
use crate::wire::opt_view;
use crate::wire::spec_opt_str;
use crate::wire::spec_opt_url;
use crate::wire::spec_u16_field;
use crate::wire::spec_url_array;
use crate::wire::spec_url_field;
use crate::wire::strings_view;

/// The ghost state of a [`Podcast`].
pub struct PodcastView {
    pub url: Seq<char>,
    pub title: Seq<char>,
    pub author: Option<Seq<char>>,
    pub description: Seq<char>,
    pub subscribers: u16,
    pub subscribers_last_week: u16,
    pub logo_url: Option<Seq<char>>,
    pub scaled_logo_url: Option<Seq<char>>,
    pub website: Option<Seq<char>>,
    pub mygpo_link: Seq<char>,
}

/// A podcast as the service describes it.
///
/// Identity — equality, ordering, hashing — goes by the feed URL alone;
/// the other fields are display metadata.
#[derive(Clone, Debug, Eq)]
pub struct Podcast {
    /// Feed URL, in canonical form: the natural key.
    pub url: String,
    /// Title of the podcast.
    pub title: String,
    /// Author of the podcast.
    pub author: Option<String>,
    /// Description of the podcast.
    pub description: String,
    /// Number of subscribers on the service.
    pub subscribers: u16,
    /// Number of subscribers on the service one week before.
    pub subscribers_last_week: u16,
    /// URL to the podcast's logo.
    pub logo_url: Option<String>,
    /// URL to a scaled logo.
    pub scaled_logo_url: Option<String>,
    /// Website of the podcast.
    pub website: Option<String>,
    /// Service-internal link for the podcast.
    pub mygpo_link: String,
}

impl View for Podcast {
    type V = PodcastView;

    open spec fn view(&self) -> PodcastView {
        PodcastView {
            url: self.url@,
            title: self.title@,
            author: opt_view(self.author),
            description: self.description@,
            subscribers: self.subscribers,
            subscribers_last_week: self.subscribers_last_week,
            logo_url: opt_view(self.logo_url),
            scaled_logo_url: opt_view(self.scaled_logo_url),
            website: opt_view(self.website),
            mygpo_link: self.mygpo_link@,
        }
    }
}

impl PartialEq for Podcast {
    fn eq(&self, other: &Self) -> (r: bool) {
        crate::order::str_eq(self.url.as_str(), other.url.as_str())
    }
}

impl vstd::std_specs::cmp::PartialEqSpecImpl for Podcast {
    open spec fn obeys_eq_spec() -> bool {
        true
    }

    open spec fn eq_spec(&self, other: &Self) -> bool {
        self.url@ == other.url@
    }
}

impl PartialOrd for Podcast {
    fn partial_cmp(&self, other: &Self) -> (r: Option<Ordering>) {
        Some(cmp_str(self.url.as_str(), other.url.as_str()))
    }
}

impl vstd::std_specs::cmp::PartialOrdSpecImpl for Podcast {
    open spec fn obeys_partial_cmp_spec() -> bool {
        true
    }

    open spec fn partial_cmp_spec(&self, other: &Self) -> Option<Ordering> {
        Some(lex_cmp(self.url@, other.url@))
    }
}

/// How a podcast renders for display.
pub open spec fn spec_podcast_display(p: PodcastView) -> Seq<char> {
    p.title + ": "@ + p.description + " <"@ + p.url + ">"@
}

impl Podcast {
    /// Feeds the natural key — the feed URL alone — to the hasher, as one
    /// write of its UTF-8 bytes. Records with equal feed URLs drive a
    /// hasher to equal states.
    pub fn hash(&self, state: &mut DefaultHasher)
        ensures
            final(state)@ == old(state)@.push(encode_utf8(self.url@)),
    {
        state.write(self.url.as_str().as_bytes());
    }

    /// Renders as `"<title>: <description> <<url>>"`.
    pub fn display_string(&self) -> (r: String)
        ensures
            r@ == spec_podcast_display(self@),
    {
        let mut out = self.title.clone();
        out.append(": ");
        out.append(self.description.as_str());
        out.append(" <");
        out.append(self.url.as_str());
        out.append(">");
        proof {
            assert(out@ =~= spec_podcast_display(self@));
        }
        out
    }

    /// Writes the record as the JSON object the wire format uses.
    pub fn to_json_string(&self) -> (r: String)
        ensures
            r@ == spec_podcast_json_text(self@),
    {
        let mut out = String::from_str("{\"url\":");
        append_json_str(&mut out, self.url.as_str());
        out.append(",\"title\":");
        append_json_str(&mut out, self.title.as_str());
        out.append(",\"author\":");
        append_opt_json_str(&mut out, &self.author);
        out.append(",\"description\":");
        append_json_str(&mut out, self.description.as_str());
        out.append(",\"subscribers\":");
        append_u64(&mut out, self.subscribers as u64);
        out.append(",\"subscribers_last_week\":");
        append_u64(&mut out, self.subscribers_last_week as u64);
        out.append(",\"logo_url\":");
        append_opt_json_str(&mut out, &self.logo_url);
        out.append(",\"scaled_logo_url\":");
        append_opt_json_str(&mut out, &self.scaled_logo_url);
        out.append(",\"website\":");
        append_opt_json_str(&mut out, &self.website);
        out.append(",\"mygpo_link\":");
        append_json_str(&mut out, self.mygpo_link.as_str());
        out.append("}");
        proof {
            assert(out@ =~= spec_podcast_json_text(self@));
        }
        out
    }
}

/// How an optional string is written as a JSON value: the string, or
/// `null`.
pub open spec fn opt_json_str_text(o: Option<Seq<char>>) -> Seq<char> {
    match o {
        Some(s) => json_str(s),
        None => "null"@,
    }
}

/// Appends an optional string as a JSON value.
fn append_opt_json_str(out: &mut String, o: &Option<String>)
    ensures
        final(out)@ == old(out)@ + opt_json_str_text(opt_view(*o)),
{
    match o {
        Some(s) => {
            append_json_str(out, s.as_str());
        },
        None => {
            out.append("null");
        },
    }
}

/// The JSON text of a podcast record, fields in declaration order.
pub open spec fn spec_podcast_json_text(p: PodcastView) -> Seq<char> {
    "{\"url\":"@ + json_str(p.url) + ",\"title\":"@ + json_str(p.title) + ",\"author\":"@
        + opt_json_str_text(p.author) + ",\"description\":"@ + json_str(p.description)
        + ",\"subscribers\":"@ + dec_str(p.subscribers as int) + ",\"subscribers_last_week\":"@
        + dec_str(p.subscribers_last_week as int) + ",\"logo_url\":"@ + opt_json_str_text(
        p.logo_url,
    ) + ",\"scaled_logo_url\":"@ + opt_json_str_text(p.scaled_logo_url) + ",\"website\":"@
        + opt_json_str_text(p.website) + ",\"mygpo_link\":"@ + json_str(p.mygpo_link) + "}"@
}

/// Podcasts that share a feed URL are the same entity: they are equal,
/// they order as `Equal`, and a hasher fed either record reaches the same
/// state, so their hashes agree.
pub proof fn lemma_podcast_same_key(a: Podcast, b: Podcast, s0: Seq<Seq<u8>>)
    requires
        a.url@ == b.url@,
    ensures
        a.eq_spec(&b),
        a.partial_cmp_spec(&b) == Some(Ordering::Equal),
        DefaultHasher::spec_finish(s0.push(encode_utf8(a.url@))) == DefaultHasher::spec_finish(
            s0.push(encode_utf8(b.url@)),
        ),
{
    lemma_lex_cmp_equal_iff(a.url@, b.url@);
}

/// Podcasts with different feed URLs are different entities: they are not
/// equal, and they order exactly as their feed URLs order
/// lexicographically — never as `Equal`.
pub proof fn lemma_podcast_distinct_key(a: Podcast, b: Podcast)
    requires
        a.url@ != b.url@,
    ensures
        !a.eq_spec(&b),
        a.partial_cmp_spec(&b) == Some(lex_cmp(a.url@, b.url@)),
        a.partial_cmp_spec(&b) != Some(Ordering::Equal),
{
    lemma_lex_cmp_equal_iff(a.url@, b.url@);
}

/// How an optional string stands in the wire object: the string, or JSON
/// null.
pub open spec fn opt_str_json(o: Option<Seq<char>>) -> Json {
    match o {
        Some(s) => Json::Str(s),
        None => Json::Null,
    }
}

/// The ghost model of a podcast record as an object on the wire.
pub open spec fn podcast_json(p: PodcastView) -> Json {
    Json::Obj(
        seq![
            ("url"@, Json::Str(p.url)),
            ("title"@, Json::Str(p.title)),
            ("author"@, opt_str_json(p.author)),
            ("description"@, Json::Str(p.description)),
            ("subscribers"@, Json::UInt(p.subscribers as u64)),
            ("subscribers_last_week"@, Json::UInt(p.subscribers_last_week as u64)),
            ("logo_url"@, opt_str_json(p.logo_url)),
            ("scaled_logo_url"@, opt_str_json(p.scaled_logo_url)),
            ("website"@, opt_str_json(p.website)),
            ("mygpo_link"@, Json::Str(p.mygpo_link)),
        ],
    )
}

/// The podcast a JSON document denotes, if it has the expected shape.
pub open spec fn spec_podcast(j: Json) -> Option<PodcastView> {
    match (spec_url_field(j, "url"@), str_field(j, "title"@), spec_opt_str(j, "author"@), str_field(
        j,
        "description"@,
    ), spec_u16_field(j, "subscribers"@), spec_u16_field(j, "subscribers_last_week"@), spec_opt_url(
        j,
        "logo_url"@,
    ), spec_opt_url(j, "scaled_logo_url"@), spec_opt_url(j, "website"@), spec_url_field(
        j,
        "mygpo_link"@,
    )) {
        (
            Some(url),
            Some(title),
            Some(author),
            Some(description),
            Some(subscribers),
            Some(subscribers_last_week),
            Some(logo_url),
            Some(scaled_logo_url),
            Some(website),
            Some(mygpo_link),
        ) => Some(
            PodcastView {
                url,
                title,
                author,
                description,
                subscribers,
                subscribers_last_week,
                logo_url,
                scaled_logo_url,
                website,
                mygpo_link,
            },
        ),
        _ => None,
    }
}

/// A podcast record whose URL fields are in canonical form.
pub open spec fn podcast_wf(p: PodcastView) -> bool {
    &&& is_normal_url(p.url)
    &&& is_normal_url(p.mygpo_link)
    &&& (p.logo_url matches Some(u) ==> is_normal_url(u))
    &&& (p.scaled_logo_url matches Some(u) ==> is_normal_url(u))
    &&& (p.website matches Some(u) ==> is_normal_url(u))
}

/// Decoding the wire object of a podcast with canonical URL fields yields
/// the podcast back, field for field.
pub proof fn lemma_podcast_round_trip(p: PodcastView)
    requires
        podcast_wf(p),
    ensures
        spec_podcast(podcast_json(p)) == Some(p),
{
    reveal_strlit("url");
    reveal_strlit("title");
    reveal_strlit("author");
    reveal_strlit("description");
    reveal_strlit("subscribers");
    reveal_strlit("subscribers_last_week");
    reveal_strlit("logo_url");
    reveal_strlit("scaled_logo_url");
    reveal_strlit("website");
    reveal_strlit("mygpo_link");
    assert("url"@.len() == 3);
    assert("title"@.len() == 5);
    assert("author"@.len() == 6);
    assert("description"@.len() == 11);
    assert("subscribers"@.len() == 11);
    assert("subscribers_last_week"@.len() == 21);
    assert("logo_url"@.len() == 8);
    assert("scaled_logo_url"@.len() == 15);
    assert("website"@.len() == 7);
    assert("mygpo_link"@.len() == 10);
    assert("description"@[0] == 'd' && "subscribers"@[0] == 's');
    let entries = podcast_json(p)->Obj_0;
    lemma_obj_lookup_at(entries, "url"@, 0);
    lemma_obj_lookup_at(entries, "title"@, 1);
    lemma_obj_lookup_at(entries, "author"@, 2);
    lemma_obj_lookup_at(entries, "description"@, 3);
    lemma_obj_lookup_at(entries, "subscribers"@, 4);
    lemma_obj_lookup_at(entries, "subscribers_last_week"@, 5);
    lemma_obj_lookup_at(entries, "logo_url"@, 6);
    lemma_obj_lookup_at(entries, "scaled_logo_url"@, 7);
    lemma_obj_lookup_at(entries, "website"@, 8);
    lemma_obj_lookup_at(entries, "mygpo_link"@, 9);
}

/// Decodes one podcast object.
pub fn decode_podcast(v: &serde_json::Value) -> (r: Result<Podcast, ClientError>)
    ensures
        match spec_podcast(json_of(*v)) {
            Some(pv) => r matches Ok(p) && p@ == pv,
            None => r matches Err(e) && e is UnexpectedResponse,
        },
{
    let url = match get_url_field(v, "url") {
        Ok(s) => s,
        Err(e) => {
            return Err(e);
        },
    };
    let title = match get_str_field(v, "title") {
        Ok(s) => s,
        Err(e) => {
            return Err(e);
        },
    };
    let author = match get_opt_str_field(v, "author") {
        Ok(s) => s,
        Err(e) => {
            return Err(e);
        },
    };
    let description = match get_str_field(v, "description") {
        Ok(s) => s,
        Err(e) => {
            return Err(e);
        },
    };
    let subscribers = match get_u16_field(v, "subscribers") {
        Ok(n) => n,
        Err(e) => {
            return Err(e);
        },
    };
    let subscribers_last_week = match get_u16_field(v, "subscribers_last_week") {
        Ok(n) => n,
        Err(e) => {
            return Err(e);
        },
    };
    let logo_url = match get_opt_url_field(v, "logo_url") {
        Ok(s) => s,
        Err(e) => {
            return Err(e);
        },
    };
    let scaled_logo_url = match get_opt_url_field(v, "scaled_logo_url") {
        Ok(s) => s,
        Err(e) => {
            return Err(e);
        },
    };
    let website = match get_opt_url_field(v, "website") {
        Ok(s) => s,
        Err(e) => {
            return Err(e);
        },
    };
    let mygpo_link = match get_url_field(v, "mygpo_link") {
        Ok(s) => s,
        Err(e) => {
            return Err(e);
        },
    };
    Ok(
        Podcast {
            url,
            title,
            author,
            description,
            subscribers,
            subscribers_last_week,
            logo_url,
            scaled_logo_url,
            website,
            mygpo_link,
        },
    )
}

/// The podcast list a JSON array denotes: every element must be a podcast
/// object.
pub open spec fn spec_podcast_list(elems: Seq<Json>) -> Option<Seq<PodcastView>>
    decreases elems.len(),
{
    if elems.len() == 0 {
        Some(Seq::empty())
    } else {
        match (spec_podcast_list(elems.take(elems.len() - 1)), spec_podcast(elems.last())) {
            (Some(ps), Some(p)) => Some(ps.push(p)),
            _ => None,
        }
    }
}

/// The podcast list a JSON document denotes, if it is an array of podcast
/// objects.
pub open spec fn spec_podcasts(j: Json) -> Option<Seq<PodcastView>> {
    match j {
        Json::Arr(elems) => spec_podcast_list(elems),
        _ => None,
    }
}

/// The views of a podcast vector.
pub open spec fn podcasts_view(ps: Seq<Podcast>) -> Seq<PodcastView> {
    ps.map_values(|p: Podcast| p@)
}

/// A list whose element fails to decode fails to decode as a whole.
proof fn lemma_podcast_list_fail(elems: Seq<Json>, i: int)
    requires
        0 <= i < elems.len(),
        spec_podcast(elems[i]) is None,
    ensures
        spec_podcast_list(elems) is None,
    decreases elems.len(),
{
    if i < elems.len() - 1 {
        lemma_podcast_list_fail(elems.take(elems.len() - 1), i);
    }
}

/// Decodes a JSON array of podcast objects.
pub fn decode_podcast_array(v: &serde_json::Value) -> (r: Result<Vec<Podcast>, ClientError>)
    ensures
        match spec_podcasts(json_of(*v)) {
            None => r matches Err(e) && e is UnexpectedResponse,
            Some(ps) => r matches Ok(o) && podcasts_view(o@) == ps,
        },
{
    let arr = match v.as_array() {
        Some(a) => a,
        None => {
            return Err(ClientError::UnexpectedResponse);
        },
    };
    let ghost elems = json_of(*v)->Arr_0;
    let mut out: Vec<Podcast> = Vec::new();
    let mut i: usize = 0;
    while i < arr.len()
        invariant
            i <= arr.len(),
            arr@.len() == elems.len(),
            forall|k: int| 0 <= k < elems.len() ==> json_of(#[trigger] arr@[k]) == elems[k],
            json_of(*v) == Json::Arr(elems),
            spec_podcast_list(elems.take(i as int)) == Some(podcasts_view(out@)),
        decreases arr.len() - i,
    {
        match decode_podcast(&arr[i]) {
            Ok(p) => {
                let ghost prev = out@;
                out.push(p);
                proof {
                    assert(elems.take(i + 1 as int).take(i as int) =~= elems.take(i as int));
                    assert(elems.take(i + 1 as int).last() == elems[i as int]);
                    assert(podcasts_view(out@) =~= podcasts_view(prev).push(out@.last()@));
                    assert(spec_podcast_list(elems.take(i + 1 as int)) == Some(
                        podcasts_view(out@),
                    ));
                }
            },
            Err(e) => {
                proof {
                    lemma_podcast_list_fail(elems, i as int);
                }
                return Err(e);
            },
        }
        i = i + 1;
    }
    proof {
        assert(elems.take(arr.len() as int) =~= elems);
    }
    Ok(out)
}

/// Decodes the response of a subscription list endpoint: a JSON array of
/// podcast objects.
pub fn decode_podcasts(body: &str) -> (r: Result<Vec<Podcast>, ClientError>)
    ensures
        match parsed_json(body@) {
            None => r matches Err(e) && e is Json,
            Some(j) => match spec_podcasts(j) {
                None => r matches Err(e) && e is UnexpectedResponse,
                Some(ps) => r matches Ok(v) && podcasts_view(v@) == ps,
            },
        },
{
    let parsed = match parse_json(body) {
        Ok(v) => v,
        Err(e) => {
            return Err(ClientError::Json(e));
        },
    };
    decode_podcast_array(&parsed)
}

/// The ghost state of an [`UploadSubscriptionChangesResponse`].
pub struct UploadResponseView {
    pub timestamp: u64,
    pub update_urls: Seq<(Seq<char>, Seq<char>)>,
}

/// What the service answers to an uploaded subscription delta.
#[derive(Clone, Debug, PartialEq, Eq, Hash)]
pub struct UploadSubscriptionChangesResponse {
    /// Server-issued timestamp: replay it verbatim as `since` on the next
    /// pull to get correct delta semantics.
    pub timestamp: u64,
    /// URLs the server rewrote, as `(original, canonical)` pairs; the
    /// client should adopt the canonical form for future requests.
    pub update_urls: Vec<(String, String)>,
}

impl View for UploadSubscriptionChangesResponse {
    type V = UploadResponseView;

    open spec fn view(&self) -> UploadResponseView {
        UploadResponseView { timestamp: self.timestamp, update_urls: pairs_view(self.update_urls@) }
    }
}

/// How an upload response renders for display: the timestamp, then the
/// rewritten pairs in debug form.
pub open spec fn spec_upload_response_display(v: UploadResponseView) -> Seq<char> {
    dec_str(v.timestamp as int) + ": "@ + debug_pair_list(v.update_urls)
}

impl UploadSubscriptionChangesResponse {
    /// Renders as `"<timestamp>: [(\"old\", \"new\"), ..]"`.
    pub fn display_string(&self) -> (r: String)
        ensures
            r@ == spec_upload_response_display(self@),
    {
        let mut out = u64_string(self.timestamp);
        out.append(": ");
        append_debug_pair_list(&mut out, &self.update_urls);
        proof {
            assert(out@ =~= spec_upload_response_display(self@));
        }
        out
    }
}

impl Default for UploadSubscriptionChangesResponse {
    /// The empty response: timestamp zero and no rewritten URLs.
    fn default() -> (r: Self)
        ensures
            r.timestamp == 0,
            r.update_urls@.len() == 0,
    {
        UploadSubscriptionChangesResponse { timestamp: 0, update_urls: Vec::new() }
    }
}

/// The rewritten-URL pair a JSON value denotes: a two-element array of URL
/// strings, each in canonical form.
pub open spec fn spec_url_pair(j: Json) -> Option<(Seq<char>, Seq<char>)> {
    match j {
        Json::Arr(es) => if es.len() == 2 {
            match (es[0], es[1]) {
                (Json::Str(a), Json::Str(b)) => match (url_normal(a), url_normal(b)) {
                    (Some(u), Some(w)) => Some((u, w)),
                    _ => None,
                },
                _ => None,
            }
        } else {
            None
        },
        _ => None,
    }
}

/// The pair list a JSON array denotes: every element must be a rewritten-
/// URL pair.
pub open spec fn spec_url_pair_list(elems: Seq<Json>) -> Option<Seq<(Seq<char>, Seq<char>)>>
    decreases elems.len(),
{
    if elems.len() == 0 {
        Some(Seq::empty())
    } else {
        match (spec_url_pair_list(elems.take(elems.len() - 1)), spec_url_pair(elems.last())) {
            (Some(ps), Some(p)) => Some(ps.push(p)),
            _ => None,
        }
    }
}

/// A pair list with a failing element denotes nothing.
proof fn lemma_url_pair_list_fail(elems: Seq<Json>, i: int)
    requires
        0 <= i < elems.len(),
        spec_url_pair(elems[i]) is None,
    ensures
        spec_url_pair_list(elems) is None,
    decreases elems.len(),
{
    if i < elems.len() - 1 {
        lemma_url_pair_list_fail(elems.take(elems.len() - 1), i);
    }
}

/// The upload response a JSON document denotes.
pub open spec fn spec_upload_response(j: Json) -> Option<UploadResponseView> {
    match (u64_field(j, "timestamp"@), json_field(j, "update_urls"@)) {
        (Some(ts), Some(Json::Arr(elems))) => match spec_url_pair_list(elems) {
            Some(ps) => Some(UploadResponseView { timestamp: ts, update_urls: ps }),
            None => None,
        },
        _ => None,
    }
}

/// Decodes the response of the delta upload endpoint.
pub fn decode_upload_response(body: &str) -> (r: Result<
    UploadSubscriptionChangesResponse,
    ClientError,
>)
    ensures
        match parsed_json(body@) {
            None => r matches Err(e) && e is Json,
            Some(j) => match spec_upload_response(j) {
                None => r matches Err(e) && e is UnexpectedResponse,
                Some(rv) => r matches Ok(resp) && resp@ == rv,
            },
        },
{
    let parsed = match parse_json(body) {
        Ok(v) => v,
        Err(e) => {
            return Err(ClientError::Json(e));
        },
    };
    let timestamp = match get_u64_field(&parsed, "timestamp") {
        Ok(n) => n,
        Err(e) => {
            return Err(e);
        },
    };
    let pairs_field = match json_get(&parsed, "update_urls") {
        Some(f) => f,
        None => {
            return Err(ClientError::UnexpectedResponse);
        },
    };
    let arr = match pairs_field.as_array() {
        Some(a) => a,
        None => {
            return Err(ClientError::UnexpectedResponse);
        },
    };
    let ghost elems = json_of(*pairs_field)->Arr_0;
    let mut update_urls: Vec<(String, String)> = Vec::new();
    let mut i: usize = 0;
    while i < arr.len()
        invariant
            i <= arr.len(),
            arr@.len() == elems.len(),
            forall|k: int| 0 <= k < elems.len() ==> json_of(#[trigger] arr@[k]) == elems[k],
            json_of(*pairs_field) == Json::Arr(elems),
            Some(json_of(parsed)) == parsed_json(body@),
            u64_field(json_of(parsed), "timestamp"@) == Some(timestamp),
            json_field(json_of(parsed), "update_urls"@) == Some(json_of(*pairs_field)),
            spec_url_pair_list(elems.take(i as int)) == Some(pairs_view(update_urls@)),
        decreases arr.len() - i,
    {
        let pair = match decode_url_pair(&arr[i]) {
            Ok(p) => p,
            Err(e) => {
                proof {
                    lemma_url_pair_list_fail(elems, i as int);
                }
                return Err(e);
            },
        };
        let ghost prev = update_urls@;
        update_urls.push(pair);
        proof {
            assert(elems.take(i + 1 as int).take(i as int) =~= elems.take(i as int));
            assert(elems.take(i + 1 as int).last() == elems[i as int]);
            assert(pairs_view(update_urls@) =~= pairs_view(prev).push(
                (update_urls@.last().0@, update_urls@.last().1@),
            ));
            assert(spec_url_pair_list(elems.take(i + 1 as int)) == Some(
                pairs_view(update_urls@),
            ));
        }
        i = i + 1;
    }
    proof {
        assert(elems.take(arr.len() as int) =~= elems);
    }
    Ok(UploadSubscriptionChangesResponse { timestamp, update_urls })
}

/// Decodes one rewritten-URL pair.
fn decode_url_pair(v: &serde_json::Value) -> (r: Result<(String, String), ClientError>)
    ensures
        match spec_url_pair(json_of(*v)) {
            Some(p) => r matches Ok(q) && (q.0@, q.1@) == p,
            None => r matches Err(e) && e is UnexpectedResponse,
        },
{
    let es = match v.as_array() {
        Some(a) => a,
        None => {
            return Err(ClientError::UnexpectedResponse);
        },
    };
    if es.len() != 2 {
        return Err(ClientError::UnexpectedResponse);
    }
    let a = match es[0].as_str() {
        Some(s) => match normalize_url(s) {
            Some(u) => u,
            None => {
                return Err(ClientError::UnexpectedResponse);
            },
        },
        None => {
            return Err(ClientError::UnexpectedResponse);
        },
    };
    let b = match es[1].as_str() {
        Some(s) => match normalize_url(s) {
            Some(u) => u,
            None => {
                return Err(ClientError::UnexpectedResponse);
            },
        },
        None => {
            return Err(ClientError::UnexpectedResponse);
        },
    };
    Ok((a, b))
}

/// The ghost state of a [`GetSubscriptionChangesResponse`].
pub struct ChangesView {
    pub timestamp: u64,
    pub add: Seq<Seq<char>>,
    pub remove: Seq<Seq<char>>,
}

/// What the service answers to a delta pull.
#[derive(Clone, Debug, PartialEq, Eq, Hash)]
pub struct GetSubscriptionChangesResponse {
    /// Server-issued timestamp: replay it verbatim as `since` on the next
    /// pull.
    pub timestamp: u64,
    /// Feed URLs to add, in canonical form.
    pub add: Vec<String>,
    /// Feed URLs to remove, in canonical form.
    pub remove: Vec<String>,
}

impl View for GetSubscriptionChangesResponse {
    type V = ChangesView;

    open spec fn view(&self) -> ChangesView {
        ChangesView {
            timestamp: self.timestamp,
            add: strings_view(self.add@),
            remove: strings_view(self.remove@),
        }
    }
}

/// How a changes response renders for display.
pub open spec fn spec_changes_display(v: ChangesView) -> Seq<char> {
    dec_str(v.timestamp as int) + ": add"@ + debug_str_list(v.add) + ", remove"@ + debug_str_list(
        v.remove,
    )
}

impl GetSubscriptionChangesResponse {
    /// Renders as `"<timestamp>: add[..], remove[..]"`.
    pub fn display_string(&self) -> (r: String)
        ensures
            r@ == spec_changes_display(self@),
    {
        let mut out = u64_string(self.timestamp);
        out.append(": add");
        append_debug_str_list(&mut out, &self.add);
        out.append(", remove");
        append_debug_str_list(&mut out, &self.remove);
        proof {
            assert(out@ =~= spec_changes_display(self@));
        }
        out
    }
}

impl Default for GetSubscriptionChangesResponse {
    /// The empty response: timestamp zero and empty deltas.
    fn default() -> (r: Self)
        ensures
            r.timestamp == 0,
            r.add@.len() == 0,
            r.remove@.len() == 0,
    {
        GetSubscriptionChangesResponse { timestamp: 0, add: Vec::new(), remove: Vec::new() }
    }
}

/// The changes response a JSON document denotes.
pub open spec fn spec_changes_response(j: Json) -> Option<ChangesView> {
    match (u64_field(j, "timestamp"@), json_field(j, "add"@), json_field(j, "remove"@)) {
        (Some(ts), Some(add_j), Some(remove_j)) => match (spec_url_array(add_j), spec_url_array(
            remove_j,
        )) {
            (Some(add), Some(remove)) => Some(ChangesView { timestamp: ts, add, remove }),
            _ => None,
        },
        _ => None,
    }
}

/// Decodes the response of the delta pull endpoint.
pub fn decode_changes_response(body: &str) -> (r: Result<
    GetSubscriptionChangesResponse,
    ClientError,
>)
    ensures
        match parsed_json(body@) {
            None => r matches Err(e) && e is Json,
            Some(j) => match spec_changes_response(j) {
                None => r matches Err(e) && e is UnexpectedResponse,
                Some(rv) => r matches Ok(resp) && resp@ == rv,
            },
        },
{
    let parsed = match parse_json(body) {
        Ok(v) => v,
        Err(e) => {
            return Err(ClientError::Json(e));
        },
    };
    let timestamp = match get_u64_field(&parsed, "timestamp") {
        Ok(n) => n,
        Err(e) => {
            return Err(e);
        },
    };
    let add = match json_get(&parsed, "add") {
        Some(f) => match decode_url_array(f) {
            Ok(us) => us,
            Err(e) => {
                return Err(e);
            },
        },
        None => {
            return Err(ClientError::UnexpectedResponse);
        },
    };
    let remove = match json_get(&parsed, "remove") {
        Some(f) => match decode_url_array(f) {
            Ok(us) => us,
            Err(e) => {
                return Err(e);
            },
        },
        None => {
            return Err(ClientError::UnexpectedResponse);
        },
    };
    Ok(GetSubscriptionChangesResponse { timestamp, add, remove })
}

/// The JSON body of a subscription delta: the additions, then the
/// removals, each an array of URL strings in caller order.
pub open spec fn spec_delta_body(add: Seq<Seq<char>>, remove: Seq<Seq<char>>) -> Seq<char> {
    "{\"add\":"@ + json_str_array(add) + ",\"remove\":"@ + json_str_array(remove) + "}"@
}

/// Builds the JSON body of a subscription delta.
pub fn delta_body(add: &Vec<String>, remove: &Vec<String>) -> (r: String)
    ensures
        r@ == spec_delta_body(strings_view(add@), strings_view(remove@)),
{
    let mut out = String::from_str("{\"add\":");
    append_json_str_array(&mut out, add);
    out.append(",\"remove\":");
    append_json_str_array(&mut out, remove);
    out.append("}");
    proof {
        assert(out@ =~= spec_delta_body(strings_view(add@), strings_view(remove@)));
    }
    out
}

/// The URL of the merged subscription list endpoint.
pub open spec fn spec_all_subscriptions_url(username: Seq<char>) -> Seq<char> {
    "https://gpodder.net/subscriptions/"@ + username + ".json"@
}

/// Builds the URL of the merged subscription list endpoint.
pub fn all_subscriptions_url(username: &str) -> (r: String)
    ensures
        r@ == spec_all_subscriptions_url(username@),
{
    let mut out = String::from_str("https://gpodder.net/subscriptions/");
    out.append(username);
    out.append(".json");
    proof {
        assert(out@ =~= spec_all_subscriptions_url(username@));
    }
    out
}

/// The URL of a device's subscription list endpoint.
pub open spec fn spec_device_subscriptions_url(
    username: Seq<char>,
    device_id: Seq<char>,
) -> Seq<char> {
    "https://gpodder.net/subscriptions/"@ + username + "/"@ + device_id + ".json"@
}

/// Builds the URL of a device's subscription list endpoint.
pub fn device_subscriptions_url(username: &str, device_id: &str) -> (r: String)
    ensures
        r@ == spec_device_subscriptions_url(username@, device_id@),
{
    let mut out = String::from_str("https://gpodder.net/subscriptions/");
    out.append(username);
    out.append("/");
    out.append(device_id);
    out.append(".json");
    proof {
        assert(out@ =~= spec_device_subscriptions_url(username@, device_id@));
    }
    out
}

/// The URL of a device's subscription delta endpoint.
pub open spec fn spec_subscription_changes_url(
    username: Seq<char>,
    device_id: Seq<char>,
) -> Seq<char> {
    "https://gpodder.net/api/2/subscriptions/"@ + username + "/"@ + device_id + ".json"@
}

/// Builds the URL of a device's subscription delta endpoint.
pub fn subscription_changes_url(username: &str, device_id: &str) -> (r: String)
    ensures
        r@ == spec_subscription_changes_url(username@, device_id@),
{
    let mut out = String::from_str("https://gpodder.net/api/2/subscriptions/");
    out.append(username);
    out.append("/");
    out.append(device_id);
    out.append(".json");
    proof {
        assert(out@ =~= spec_subscription_changes_url(username@, device_id@));
    }
    out
}

/// Reading the user's merged subscription list.
pub trait GetAllSubscriptions {
    /// Returns every podcast the user is subscribed to, over all devices.
    /// Every returned list is the faithful decoding of some response text
    /// that parses as a podcast-list document.
    fn get_all_subscriptions(&self) -> (r: Result<Vec<Podcast>, ClientError>)
        ensures
            r matches Ok(ps) ==> exists|body: Seq<char>|
                #[trigger] parsed_json(body) is Some && spec_podcasts(parsed_json(body).unwrap())
                    == Some(podcasts_view(ps@)),
    ;
}

/// Reading and replacing one device's subscription list.
pub trait SubscriptionsOfDevice {
    /// Returns the feed URLs the device is subscribed to, in canonical
    /// form, in the order the service lists them: the faithful decoding of
    /// some response text that parses as a URL-list document.
    fn get_subscriptions_of_device(&self) -> (r: Result<Vec<String>, ClientError>)
        ensures
            r matches Ok(us) ==> exists|body: Seq<char>|
                #[trigger] parsed_json(body) is Some && spec_url_array(parsed_json(body).unwrap())
                    == Some(strings_view(us@)),
    ;

    /// Replaces the device's subscription list with `subscriptions`: a
    /// full snapshot, not a delta — any URL left out is unsubscribed.
    fn upload_subscriptions_of_device(&self, subscriptions: &Vec<String>) -> (r: Result<
        (),
        ClientError,
    >)
        ensures
            r matches Err(e) ==> e is Http,
    ;
}

/// Exchanging subscription deltas.
pub trait SubscriptionChanges {
    /// Uploads a delta of added and removed feed URLs. The server issues
    /// the timestamp; the caller must apply the returned rewritten URLs
    /// locally. Every returned value is the faithful decoding of some
    /// response text that parses as an upload-response document.
    fn upload_subscription_changes(&self, add: &Vec<String>, remove: &Vec<String>) -> (r: Result<
        UploadSubscriptionChangesResponse,
        ClientError,
    >)
        ensures
            r matches Ok(resp) ==> exists|body: Seq<char>|
                #[trigger] parsed_json(body) is Some && spec_upload_response(
                    parsed_json(body).unwrap(),
                ) == Some(resp@),
    ;

    /// Pulls the delta since the given server-issued timestamp. Every
    /// returned value is the faithful decoding of some response text that
    /// parses as a changes document.
    fn get_subscription_changes(&self, timestamp: u64) -> (r: Result<
        GetSubscriptionChangesResponse,
        ClientError,
    >)
        ensures
            r matches Ok(resp) ==> exists|body: Seq<char>|
                #[trigger] parsed_json(body) is Some && spec_changes_response(
                    parsed_json(body).unwrap(),
                ) == Some(resp@),
    ;
}

impl GetAllSubscriptions for AuthenticatedClient {
    fn get_all_subscriptions(&self) -> (r: Result<Vec<Podcast>, ClientError>) {
        let url = all_subscriptions_url(self.username.as_str());
        let body = match self.get(url.as_str()) {
            Ok(response) => response.1,
            Err(e) => {
                return Err(e);
            },
        };
        match decode_podcasts(body.as_str()) {
            Ok(ps) => {
                proof {
                    assert(parsed_json(body@) is Some && spec_podcasts(
                        parsed_json(body@).unwrap(),
                    ) == Some(podcasts_view(ps@)));
                }
                Ok(ps)
            },
            Err(e) => Err(e),
        }
    }
}

impl GetAllSubscriptions for DeviceClient {
    fn get_all_subscriptions(&self) -> (r: Result<Vec<Podcast>, ClientError>) {
        self.authenticated_client.get_all_subscriptions()
    }
}

impl SubscriptionsOfDevice for DeviceClient {
    fn get_subscriptions_of_device(&self) -> (r: Result<Vec<String>, ClientError>) {
        let url = device_subscriptions_url(
            self.authenticated_client.username.as_str(),
            self.device_id.as_str(),
        );
        let body = match self.get(url.as_str()) {
            Ok(response) => response.1,
            Err(e) => {
                return Err(e);
            },
        };
        let parsed = match parse_json(body.as_str()) {
            Ok(v) => v,
            Err(e) => {
                return Err(ClientError::Json(e));
            },
        };
        match decode_url_array(&parsed) {
            Ok(us) => {
                proof {
                    assert(parsed_json(body@) is Some && spec_url_array(
                        parsed_json(body@).unwrap(),
                    ) == Some(strings_view(us@)));
                }
                Ok(us)
            },
            Err(e) => Err(e),
        }
    }

    fn upload_subscriptions_of_device(&self, subscriptions: &Vec<String>) -> (r: Result<
        (),
        ClientError,
    >) {
        let url = device_subscriptions_url(
            self.authenticated_client.username.as_str(),
            self.device_id.as_str(),
        );
        let mut body = String::new();
        append_json_str_array(&mut body, subscriptions);
        match self.put(url.as_str(), body.as_str()) {
            Ok(_) => Ok(()),
            Err(e) => Err(e),
        }
    }
}

impl SubscriptionChanges for DeviceClient {
    fn upload_subscription_changes(&self, add: &Vec<String>, remove: &Vec<String>) -> (r: Result<
        UploadSubscriptionChangesResponse,
        ClientError,
    >) {
        let url = subscription_changes_url(
            self.authenticated_client.username.as_str(),
            self.device_id.as_str(),
        );
        let body = delta_body(add, remove);
        let answer = match self.post(url.as_str(), body.as_str()) {
            Ok(response) => response.1,
            Err(e) => {
                return Err(e);
            },
        };
        match decode_upload_response(answer.as_str()) {
            Ok(resp) => {
                proof {
                    assert(parsed_json(answer@) is Some && spec_upload_response(
                        parsed_json(answer@).unwrap(),
                    ) == Some(resp@));
                }
                Ok(resp)
            },
            Err(e) => Err(e),
        }
    }

    fn get_subscription_changes(&self, timestamp: u64) -> (r: Result<
        GetSubscriptionChangesResponse,
        ClientError,
    >) {
        let url = subscription_changes_url(
            self.authenticated_client.username.as_str(),
            self.device_id.as_str(),
        );
        let mut params: Vec<(String, String)> = Vec::new();
        params.push((String::from_str("since"), u64_string(timestamp)));
        let body = match self.get_with_query(url.as_str(), &params) {
            Ok(response) => response.1,
            Err(e) => {
                return Err(e);
            },
        };
        match decode_changes_response(body.as_str()) {
            Ok(resp) => {
                proof {
                    assert(parsed_json(body@) is Some && spec_changes_response(
                        parsed_json(body@).unwrap(),
                    ) == Some(resp@));
                }
                Ok(resp)
            },
            Err(e) => Err(e),
        }
    }
}

} // verus!
