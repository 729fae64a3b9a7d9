//! Devices: the records that identify a client application, and the
//! operations on them.
//!
//! A device is compared, ordered and hashed by its id alone: two records
//! with the same id are the same entity, whatever their display metadata
//! says. The operations here list the user's devices and update one
//! device's metadata; both exchange JSON whose request side is built, and
//! whose response side is mapped, by verified code.

use vstd::prelude::*;

verus! {

use core::cmp::Ordering;
use std::collections::hash_map::DefaultHasher;
use std::hash::Hasher;
use vstd::std_specs::cmp::PartialEqSpec;
use vstd::std_specs::cmp::PartialOrdSpec;
use vstd::std_specs::hash::DefaultHasherAdditionalSpecFns;
use vstd::utf8::encode_utf8;
use crate::client::AuthenticatedClient;
use crate::client::DeviceClient;
use crate::error::ClientError;
use crate::json::Json;
use crate::json::json_of;
use crate::json::parse_json;
use crate::json::parsed_json;
use crate::json::json_get;
use crate::json::json_field;
use crate::json::lemma_obj_lookup_at;
use crate::json::str_field;
use crate::json::u64_field;
use crate::order::cmp_str;
use crate::order::lex_cmp;
use crate::order::lemma_lex_cmp_equal_iff;
use crate::order::str_eq;
use crate::text::json_str;
use crate::text::json_object_text;
use crate::text::json_object_body;
use crate::text::json_member;
use crate::text::append_json_str;
use crate::text::lemma_json_escaped_clean;
use crate::text::json_clean;
use crate::text::append_u64;
use crate::text::bool_string;
use crate::text::dec_str;
use crate::text::u64_string;
use crate::datetime::ReleaseTime;
use crate::datetime::spec_release_time;
use crate::episode::EpisodeActionType;
use crate::episode::spec_action_of_wire;
use crate::subscription::Podcast;
use crate::subscription::PodcastView;
use crate::subscription::decode_podcast_array;
use crate::subscription::podcasts_view;
use crate::subscription::spec_podcasts;
use crate::wire::get_opt_str_field;
use crate::wire::get_str_field;
use crate::wire::get_u64_field;
use crate::wire::get_url_field;
use crate::wire::decode_url_array;
use crate::wire::spec_opt_str;
use crate::wire::spec_url_array;
use crate::wire::spec_url_field;
use crate::wire::strings_view;

/// The kind of device a client application runs on.
#[derive(Clone, Copy, Debug, PartialEq, Eq, Hash, Structural)]
pub enum DeviceType {
    /// desktop computer
    Desktop,
    /// portable computer
    Laptop,
    /// smartphone or tablet
    Mobile,
    /// server
    Server,
    /// any device that fits no other variant
    Other,
}

/// The name a device type is written as on the wire: the variant name in
/// lower case.
pub open spec fn spec_wire_name(t: DeviceType) -> Seq<char> {
    match t {
        DeviceType::Desktop => "desktop"@,
        DeviceType::Laptop => "laptop"@,
        DeviceType::Mobile => "mobile"@,
        DeviceType::Server => "server"@,
        DeviceType::Other => "other"@,
    }
}

/// The device type a wire name denotes, if any.
pub open spec fn spec_of_wire(s: Seq<char>) -> Option<DeviceType> {
    if s == "desktop"@ {
        Some(DeviceType::Desktop)
    } else if s == "laptop"@ {
        Some(DeviceType::Laptop)
    } else if s == "mobile"@ {
        Some(DeviceType::Mobile)
    } else if s == "server"@ {
        Some(DeviceType::Server)
    } else if s == "other"@ {
        Some(DeviceType::Other)
    } else {
        None
    }
}

/// The capitalized variant name, as display formatting writes it.
pub open spec fn spec_type_name(t: DeviceType) -> Seq<char> {
    match t {
        DeviceType::Desktop => "Desktop"@,
        DeviceType::Laptop => "Laptop"@,
        DeviceType::Mobile => "Mobile"@,
        DeviceType::Server => "Server"@,
        DeviceType::Other => "Other"@,
    }
}

/// Reading a wire name back yields the device type it was written from.
pub proof fn lemma_wire_name_round_trip(t: DeviceType)
    ensures
        spec_of_wire(spec_wire_name(t)) == Some(t),
{
    reveal_strlit("desktop");
    reveal_strlit("laptop");
    reveal_strlit("mobile");
    reveal_strlit("server");
    reveal_strlit("other");
    assert("desktop"@.len() == 7);
    assert("laptop"@.len() == 6);
    assert("mobile"@.len() == 6);
    assert("server"@.len() == 6);
    assert("other"@.len() == 5);
    assert("laptop"@[0] == 'l' && "mobile"@[0] == 'm' && "server"@[0] == 's');
}

impl DeviceType {
    /// The lower-case name this type is written as on the wire.
    pub fn wire_name(&self) -> (r: &'static str)
        ensures
            r@ == spec_wire_name(*self),
    {
        match self {
            DeviceType::Desktop => "desktop",
            DeviceType::Laptop => "laptop",
            DeviceType::Mobile => "mobile",
            DeviceType::Server => "server",
            DeviceType::Other => "other",
        }
    }

    /// The device type a wire name denotes, if any.
    pub fn from_wire(s: &str) -> (r: Option<DeviceType>)
        ensures
            r == spec_of_wire(s@),
    {
        if str_eq(s, "desktop") {
            Some(DeviceType::Desktop)
        } else if str_eq(s, "laptop") {
            Some(DeviceType::Laptop)
        } else if str_eq(s, "mobile") {
            Some(DeviceType::Mobile)
        } else if str_eq(s, "server") {
            Some(DeviceType::Server)
        } else if str_eq(s, "other") {
            Some(DeviceType::Other)
        } else {
            None
        }
    }

    /// The capitalized variant name, as display formatting writes it.
    pub fn display_name(&self) -> (r: &'static str)
        ensures
            r@ == spec_type_name(*self),
    {
        match self {
            DeviceType::Desktop => "Desktop",
            DeviceType::Laptop => "Laptop",
            DeviceType::Mobile => "Mobile",
            DeviceType::Server => "Server",
            DeviceType::Other => "Other",
        }
    }
}

/// The ghost state of a [`Device`].
pub struct DeviceView {
    pub id: Seq<char>,
    pub caption: Seq<char>,
    pub device_type: DeviceType,
    pub subscriptions: u16,
}

/// A device registered with the service.
///
/// Identity — equality, ordering, hashing — goes by `id` alone; the other
/// fields are display metadata.
#[derive(Clone, Debug, Eq)]
pub struct Device {
    /// The device id: any string matching `[\w.-]+`, chosen by the client
    /// application, which should keep it unique within the user account.
    pub id: String,
    /// Human readable label for the device.
    pub caption: String,
    /// The kind of device.
    pub device_type: DeviceType,
    /// Number of subscriptions for this device.
    pub subscriptions: u16,
}

impl View for Device {
    type V = DeviceView;

    open spec fn view(&self) -> DeviceView {
        DeviceView {
            id: self.id@,
            caption: self.caption@,
            device_type: self.device_type,
            subscriptions: self.subscriptions,
        }
    }
}

impl PartialEq for Device {
    fn eq(&self, other: &Self) -> (r: bool) {
        str_eq(self.id.as_str(), other.id.as_str())
    }
}

impl vstd::std_specs::cmp::PartialEqSpecImpl for Device {
    open spec fn obeys_eq_spec() -> bool {
        true
    }

    open spec fn eq_spec(&self, other: &Self) -> bool {
        self.id@ == other.id@
    }
}

impl PartialOrd for Device {
    fn partial_cmp(&self, other: &Self) -> (r: Option<Ordering>) {
        Some(cmp_str(self.id.as_str(), other.id.as_str()))
    }
}

impl vstd::std_specs::cmp::PartialOrdSpecImpl for Device {
    open spec fn obeys_partial_cmp_spec() -> bool {
        true
    }

    open spec fn partial_cmp_spec(&self, other: &Self) -> Option<Ordering> {
        Some(lex_cmp(self.id@, other.id@))
    }
}

/// How a device renders for display.
pub open spec fn spec_device_display(d: DeviceView) -> Seq<char> {
    spec_type_name(d.device_type) + " "@ + d.caption + " (id="@ + d.id + ")"@
}

impl Device {
    /// Feeds the natural key — the id alone — to the hasher, as one write
    /// of its UTF-8 bytes. Records with equal ids drive a hasher to equal
    /// states.
    pub fn hash(&self, state: &mut DefaultHasher)
        ensures
            final(state)@ == old(state)@.push(encode_utf8(self.id@)),
    {
        state.write(self.id.as_str().as_bytes());
    }

    /// Renders as `"<Type> <caption> (id=<id>)"`.
    pub fn display_string(&self) -> (r: String)
        ensures
            r@ == spec_device_display(self@),
    {
        let mut out = self.device_type.display_name().to_owned();
        out.append(" ");
        out.append(self.caption.as_str());
        out.append(" (id=");
        out.append(self.id.as_str());
        out.append(")");
        proof {
            assert(out@ =~= spec_device_display(self@));
        }
        out
    }
}

/// Devices that share an id are the same entity: they are equal, they
/// order as `Equal`, and a hasher fed either record reaches the same
/// state, so their hashes agree.
pub proof fn lemma_device_same_key(a: Device, b: Device, s0: Seq<Seq<u8>>)
    requires
        a.id@ == b.id@,
    ensures
        a.eq_spec(&b),
        a.partial_cmp_spec(&b) == Some(Ordering::Equal),
        DefaultHasher::spec_finish(s0.push(encode_utf8(a.id@))) == DefaultHasher::spec_finish(
            s0.push(encode_utf8(b.id@)),
        ),
{
    lemma_lex_cmp_equal_iff(a.id@, b.id@);
}

/// Devices with different ids are different entities: they are not equal,
/// and they order exactly as their ids order lexicographically — never as
/// `Equal`.
pub proof fn lemma_device_distinct_key(a: Device, b: Device)
    requires
        a.id@ != b.id@,
    ensures
        !a.eq_spec(&b),
        a.partial_cmp_spec(&b) == Some(lex_cmp(a.id@, b.id@)),
        a.partial_cmp_spec(&b) != Some(Ordering::Equal),
{
    lemma_lex_cmp_equal_iff(a.id@, b.id@);
}

/// The JSON body of a device-data update: only the present fields appear,
/// `caption` before `type`.
pub open spec fn spec_device_data_body(
    caption: Option<Seq<char>>,
    device_type: Option<DeviceType>,
) -> Seq<char> {
    match (caption, device_type) {
        (Option::None, Option::None) => "{}"@,
        (Option::Some(c), Option::None) => "{\"caption\":"@ + json_str(c) + "}"@,
        (Option::None, Option::Some(t)) => "{\"type\":"@ + json_str(spec_wire_name(t)) + "}"@,
        (Option::Some(c), Option::Some(t)) => "{\"caption\":"@ + json_str(c) + ",\"type\":"@
            + json_str(spec_wire_name(t)) + "}"@,
    }
}

/// An absent field is omitted from the update body entirely: the body is
/// the JSON object whose keys are exactly the present fields, and with
/// both fields absent it is the empty object.
pub proof fn lemma_device_data_omits_absent(c: Seq<char>, t: DeviceType)
    ensures
        spec_device_data_body(None, None) == "{}"@,
        spec_device_data_body(Some(c), None) == json_object_text(
            seq![("caption"@, json_str(c))],
        ),
        spec_device_data_body(None, Some(t)) == json_object_text(
            seq![("type"@, json_str(spec_wire_name(t)))],
        ),
        spec_device_data_body(Some(c), Some(t)) == json_object_text(
            seq![("caption"@, json_str(c)), ("type"@, json_str(spec_wire_name(t)))],
        ),
{
    reveal_strlit("caption");
    reveal_strlit("type");
    reveal_strlit("{}");
    reveal_strlit("}");
    reveal_strlit("{\"caption\":");
    reveal_strlit("{\"type\":");
    reveal_strlit(",\"type\":");
    assert forall|i: int| 0 <= i < "caption"@.len() implies json_clean(#[trigger] "caption"@[i]) by {
        assert("caption"@ =~= seq!['c', 'a', 'p', 't', 'i', 'o', 'n']);
    }
    assert forall|i: int| 0 <= i < "type"@.len() implies json_clean(#[trigger] "type"@[i]) by {
        assert("type"@ =~= seq!['t', 'y', 'p', 'e']);
    }
    lemma_json_escaped_clean("caption"@);
    lemma_json_escaped_clean("type"@);
    let key_c = json_str("caption"@);
    let key_t = json_str("type"@);
    assert(key_c =~= seq!['"'] + "caption"@ + seq!['"']);
    assert(key_t =~= seq!['"'] + "type"@ + seq!['"']);
    assert("{\"caption\":"@ =~= seq!['{'] + key_c + seq![':']);
    assert("{\"type\":"@ =~= seq!['{'] + key_t + seq![':']);
    assert("}"@ =~= seq!['}']);
    assert(",\"type\":"@ =~= seq![','] + key_t + seq![':']);
    let caption_entry = ("caption"@, json_str(c));
    let type_entry = ("type"@, json_str(spec_wire_name(t)));
    assert(json_object_body(seq![caption_entry]) == key_c + seq![':'] + json_str(c));
    assert(json_object_body(seq![type_entry]) == key_t + seq![':'] + json_str(
        spec_wire_name(t),
    ));
    assert(spec_device_data_body(Some(c), None) =~= json_object_text(seq![caption_entry]));
    assert(spec_device_data_body(None, Some(t)) =~= json_object_text(seq![type_entry]));
    let both = seq![caption_entry, type_entry];
    assert(both.take(1) =~= seq![caption_entry]);
    assert(json_object_body(both) == json_object_body(seq![caption_entry]) + seq![',']
        + json_member(type_entry));
    assert(spec_device_data_body(Some(c), Some(t)) =~= json_object_text(both));
}

/// Builds the JSON body of a device-data update.
pub fn device_data_body(caption: &Option<String>, device_type: &Option<DeviceType>) -> (r: String)
    ensures
        r@ == spec_device_data_body(
            match caption {
                Option::Some(c) => Some(c@),
                Option::None => None,
            },
            *device_type,
        ),
{
    let mut out = String::new();
    match (caption, device_type) {
        (Option::None, Option::None) => {
            out.append("{}");
        },
        (Option::Some(c), Option::None) => {
            out.append("{\"caption\":");
            append_json_str(&mut out, c.as_str());
            out.append("}");
        },
        (Option::None, Option::Some(t)) => {
            out.append("{\"type\":");
            append_json_str(&mut out, t.wire_name());
            out.append("}");
        },
        (Option::Some(c), Option::Some(t)) => {
            out.append("{\"caption\":");
            append_json_str(&mut out, c.as_str());
            out.append(",\"type\":");
            append_json_str(&mut out, t.wire_name());
            out.append("}");
        },
    }
    proof {
        assert(out@ =~= spec_device_data_body(
            match caption {
                Option::Some(c) => Some(c@),
                Option::None => None,
            },
            *device_type,
        ));
    }
    out
}

/// The ghost model of a device record as an object on the wire.
pub open spec fn device_json(d: DeviceView) -> Json {
    Json::Obj(
        seq![
            ("id"@, Json::Str(d.id)),
            ("caption"@, Json::Str(d.caption)),
            ("type"@, Json::Str(spec_wire_name(d.device_type))),
            ("subscriptions"@, Json::UInt(d.subscriptions as u64)),
        ],
    )
}

/// The device a JSON document denotes, if it has the expected shape.
pub open spec fn spec_device(j: Json) -> Option<DeviceView> {
    match (str_field(j, "id"@), str_field(j, "caption"@), str_field(j, "type"@), u64_field(
        j,
        "subscriptions"@,
    )) {
        (Some(id), Some(caption), Some(t), Some(n)) => match spec_of_wire(t) {
            Some(dt) => if n <= 65535 {
                Some(DeviceView { id, caption, device_type: dt, subscriptions: n as u16 })
            } else {
                None
            },
            None => None,
        },
        _ => None,
    }
}

/// The device list a JSON array denotes: every element must be a device
/// object.
pub open spec fn spec_device_list(elems: Seq<Json>) -> Option<Seq<DeviceView>>
    decreases elems.len(),
{
    if elems.len() == 0 {
        Some(Seq::empty())
    } else {
        match (spec_device_list(elems.take(elems.len() - 1)), spec_device(elems.last())) {
            (Some(ds), Some(d)) => Some(ds.push(d)),
            _ => None,
        }
    }
}

/// The device list a JSON document denotes, if it is an array of device
/// objects.
pub open spec fn spec_devices(j: Json) -> Option<Seq<DeviceView>> {
    match j {
        Json::Arr(elems) => spec_device_list(elems),
        _ => None,
    }
}

/// The views of a device vector.
pub open spec fn devices_view(ds: Seq<Device>) -> Seq<DeviceView> {
    ds.map_values(|d: Device| d@)
}

/// Decoding the wire object of a device yields the device back,
/// field for field.
pub proof fn lemma_device_round_trip(d: DeviceView)
    ensures
        spec_device(device_json(d)) == Some(d),
{
    reveal_strlit("id");
    reveal_strlit("caption");
    reveal_strlit("type");
    reveal_strlit("subscriptions");
    lemma_wire_name_round_trip(d.device_type);
    assert("id"@.len() == 2);
    assert("caption"@.len() == 7);
    assert("type"@.len() == 4);
    assert("subscriptions"@.len() == 13);
    let entries =
        seq![
        ("id"@, Json::Str(d.id)),
        ("caption"@, Json::Str(d.caption)),
        ("type"@, Json::Str(spec_wire_name(d.device_type))),
        ("subscriptions"@, Json::UInt(d.subscriptions as u64)),
    ];
    lemma_obj_lookup_at(entries, "id"@, 0);
    lemma_obj_lookup_at(entries, "caption"@, 1);
    lemma_obj_lookup_at(entries, "type"@, 2);
    lemma_obj_lookup_at(entries, "subscriptions"@, 3);
    assert(str_field(device_json(d), "id"@) == Some(d.id));
    assert(str_field(device_json(d), "caption"@) == Some(d.caption));
    assert(str_field(device_json(d), "type"@) == Some(spec_wire_name(d.device_type)));
    assert(u64_field(device_json(d), "subscriptions"@) == Some(d.subscriptions as u64));
}

/// Decodes one device object.
pub fn decode_device(v: &serde_json::Value) -> (r: Result<Device, ClientError>)
    ensures
        match spec_device(json_of(*v)) {
            Some(dv) => r matches Ok(d) && d@ == dv,
            None => r matches Err(e) && e is UnexpectedResponse,
        },
{
    let id = match json_get(v, "id") {
        Some(f) => match f.as_str() {
            Some(s) => s.to_owned(),
            None => {
                return Err(ClientError::UnexpectedResponse);
            },
        },
        None => {
            return Err(ClientError::UnexpectedResponse);
        },
    };
    let caption = match json_get(v, "caption") {
        Some(f) => match f.as_str() {
            Some(s) => s.to_owned(),
            None => {
                return Err(ClientError::UnexpectedResponse);
            },
        },
        None => {
            return Err(ClientError::UnexpectedResponse);
        },
    };
    let device_type = match json_get(v, "type") {
        Some(f) => match f.as_str() {
            Some(s) => match DeviceType::from_wire(s) {
                Some(t) => t,
                None => {
                    return Err(ClientError::UnexpectedResponse);
                },
            },
            None => {
                return Err(ClientError::UnexpectedResponse);
            },
        },
        None => {
            return Err(ClientError::UnexpectedResponse);
        },
    };
    let subscriptions = match json_get(v, "subscriptions") {
        Some(f) => match f.as_u64() {
            Some(n) => {
                if n <= 65535 {
                    n as u16
                } else {
                    return Err(ClientError::UnexpectedResponse);
                }
            },
            None => {
                return Err(ClientError::UnexpectedResponse);
            },
        },
        None => {
            return Err(ClientError::UnexpectedResponse);
        },
    };
    Ok(Device { id, caption, device_type, subscriptions })
}

/// A list whose element fails to decode fails to decode as a whole.
proof fn lemma_device_list_fail(elems: Seq<Json>, i: int)
    requires
        0 <= i < elems.len(),
        spec_device(elems[i]) is None,
    ensures
        spec_device_list(elems) is None,
    decreases elems.len(),
{
    if i < elems.len() - 1 {
        lemma_device_list_fail(elems.take(elems.len() - 1), i);
    }
}

/// Decodes the response of the device list endpoint: a JSON array of
/// device objects.
pub fn decode_devices(body: &str) -> (r: Result<Vec<Device>, ClientError>)
    ensures
        match parsed_json(body@) {
            None => r matches Err(e) && e is Json,
            Some(j) => match spec_devices(j) {
                None => r matches Err(e) && e is UnexpectedResponse,
                Some(ds) => r matches Ok(v) && devices_view(v@) == ds,
            },
        },
{
    let parsed = match parse_json(body) {
        Ok(v) => v,
        Err(e) => {
            return Err(ClientError::Json(e));
        },
    };
    let arr = match parsed.as_array() {
        Some(a) => a,
        None => {
            return Err(ClientError::UnexpectedResponse);
        },
    };
    let ghost elems = json_of(parsed)->Arr_0;
    let mut out: Vec<Device> = Vec::new();
    let mut i: usize = 0;
    while i < arr.len()
        invariant
            i <= arr.len(),
            arr@.len() == elems.len(),
            forall|k: int| 0 <= k < elems.len() ==> json_of(#[trigger] arr@[k]) == elems[k],
            json_of(parsed) == Json::Arr(elems),
            Some(json_of(parsed)) == parsed_json(body@),
            spec_device_list(elems.take(i as int)) == Some(devices_view(out@)),
        decreases arr.len() - i,
    {
        match decode_device(&arr[i]) {
            Ok(d) => {
                let ghost prev = out@;
                out.push(d);
                proof {
                    assert(elems.take(i + 1 as int).take(i as int) =~= elems.take(i as int));
                    assert(elems.take(i + 1 as int).last() == elems[i as int]);
                    assert(devices_view(out@) =~= devices_view(prev).push(d@));
                    assert(spec_device_list(elems.take(i + 1 as int)) == Some(devices_view(out@)));
                }
            },
            Err(e) => {
                proof {
                    lemma_device_list_fail(elems, i as int);
                }
                return Err(e);
            },
        }
        i = i + 1;
    }
    proof {
        assert(elems.take(arr.len() as int) =~= elems);
    }
    Ok(out)
}

/// The URL of the device list endpoint.
pub open spec fn spec_devices_url(username: Seq<char>) -> Seq<char> {
    "https://gpodder.net/devices/"@ + username + ".json"@
}

/// Builds the URL of the device list endpoint.
pub fn devices_url(username: &str) -> (r: String)
    ensures
        r@ == spec_devices_url(username@),
{
    let mut out = String::from_str("https://gpodder.net/devices/");
    out.append(username);
    out.append(".json");
    proof {
        assert(out@ =~= spec_devices_url(username@));
    }
    out
}

/// The URL of the device-data update endpoint.
pub open spec fn spec_update_device_url(username: Seq<char>, device_id: Seq<char>) -> Seq<char> {
    "https://gpodder.net/devices/"@ + username + "/"@ + device_id + ".json"@
}

/// Builds the URL of the device-data update endpoint.
pub fn update_device_url(username: &str, device_id: &str) -> (r: String)
    ensures
        r@ == spec_update_device_url(username@, device_id@),
{
    let mut out = String::from_str("https://gpodder.net/devices/");
    out.append(username);
    out.append("/");
    out.append(device_id);
    out.append(".json");
    proof {
        assert(out@ =~= spec_update_device_url(username@, device_id@));
    }
    out
}

/// Listing the devices that belong to a user.
pub trait ListDevices {
    /// Returns the devices registered for the user, as the service lists
    /// them. Every returned list is the faithful decoding of some response
    /// text that parses as a device-list document; transport trouble,
    /// non-JSON bodies and unexpected shapes each surface as their own
    /// error.
    fn list_devices(&self) -> (r: Result<Vec<Device>, ClientError>)
        ensures
            r matches Ok(ds) ==> exists|body: Seq<char>|
                #[trigger] parsed_json(body) is Some && spec_devices(parsed_json(body).unwrap())
                    == Some(devices_view(ds@)),
    ;
}

/// Updating a device's metadata.
pub trait UpdateDeviceData {
    /// Sends the present fields — and only those — as the new metadata of
    /// the device; an absent field stays untouched server-side.
    fn update_device_data(&self, caption: Option<String>, device_type: Option<DeviceType>) -> (r:
        Result<(), ClientError>)
        ensures
            r matches Err(e) ==> e is Http,
    ;
}

impl ListDevices for AuthenticatedClient {
    fn list_devices(&self) -> (r: Result<Vec<Device>, ClientError>) {
        let url = devices_url(self.username.as_str());
        let body = match self.get(url.as_str()) {
            Ok(response) => response.1,
            Err(e) => {
                return Err(e);
            },
        };
        match decode_devices(body.as_str()) {
            Ok(ds) => {
                proof {
                    assert(parsed_json(body@) is Some && spec_devices(
                        parsed_json(body@).unwrap(),
                    ) == Some(devices_view(ds@)));
                }
                Ok(ds)
            },
            Err(e) => Err(e),
        }
    }
}

impl ListDevices for DeviceClient {
    fn list_devices(&self) -> (r: Result<Vec<Device>, ClientError>) {
        self.authenticated_client.list_devices()
    }
}

impl UpdateDeviceData for DeviceClient {
    fn update_device_data(&self, caption: Option<String>, device_type: Option<DeviceType>) -> (r:
        Result<(), ClientError>) {
        let body = device_data_body(&caption, &device_type);
        let url = update_device_url(
            self.authenticated_client.username.as_str(),
            self.device_id.as_str(),
        );
        match self.post(url.as_str(), body.as_str()) {
            Ok(_) => Ok(()),
            Err(e) => Err(e),
        }
    }
}

/// The JSON text of a device record, fields in declaration order.
pub open spec fn spec_device_json_text(d: DeviceView) -> Seq<char> {
    "{\"id\":"@ + json_str(d.id) + ",\"caption\":"@ + json_str(d.caption) + ",\"type\":"@
        + json_str(spec_wire_name(d.device_type)) + ",\"subscriptions\":"@ + dec_str(
        d.subscriptions as int,
    ) + "}"@
}

impl Device {
    /// Writes the record as the JSON object the wire format uses.
    pub fn to_json_string(&self) -> (r: String)
        ensures
            r@ == spec_device_json_text(self@),
    {
        let mut out = String::from_str("{\"id\":");
        append_json_str(&mut out, self.id.as_str());
        out.append(",\"caption\":");
        append_json_str(&mut out, self.caption.as_str());
        out.append(",\"type\":");
        append_json_str(&mut out, self.device_type.wire_name());
        out.append(",\"subscriptions\":");
        append_u64(&mut out, self.subscriptions as u64);
        out.append("}");
        proof {
            assert(out@ =~= spec_device_json_text(self@));
        }
        out
    }
}

/// The ghost state of an [`EpisodeUpdate`].
pub struct EpisodeUpdateView {
    pub title: Seq<char>,
    pub url: Seq<char>,
    pub podcast_title: Seq<char>,
    pub podcast_url: Seq<char>,
    pub description: Seq<char>,
    pub website: Seq<char>,
    pub mygpo_link: Seq<char>,
    pub released: ReleaseTime,
    pub status: Option<EpisodeActionType>,
}

/// Updated information for one episode, as carried in a device update.
#[derive(Clone, Debug)]
pub struct EpisodeUpdate {
    /// Episode title.
    pub title: String,
    /// Episode URL, in canonical form.
    pub url: String,
    /// Podcast title.
    pub podcast_title: String,
    /// Podcast URL, in canonical form.
    pub podcast_url: String,
    /// Episode description.
    pub description: String,
    /// Episode website, in canonical form.
    pub website: String,
    /// Service-internal link, in canonical form.
    pub mygpo_link: String,
    /// Episode release instant.
    pub released: ReleaseTime,
    /// Latest episode action reported for this episode.
    pub status: Option<EpisodeActionType>,
}

impl View for EpisodeUpdate {
    type V = EpisodeUpdateView;

    open spec fn view(&self) -> EpisodeUpdateView {
        EpisodeUpdateView {
            title: self.title@,
            url: self.url@,
            podcast_title: self.podcast_title@,
            podcast_url: self.podcast_url@,
            description: self.description@,
            website: self.website@,
            mygpo_link: self.mygpo_link@,
            released: self.released,
            status: self.status,
        }
    }
}

/// The release field an episode object carries: a well-formed instant
/// under the key `released`.
pub open spec fn spec_released_field(j: Json) -> Option<ReleaseTime> {
    match str_field(j, "released"@) {
        Some(s) => spec_release_time(s),
        None => None,
    }
}

/// The status field an episode object carries: absent or `null` means no
/// action, a known action name means that action, anything else is a
/// shape mismatch.
pub open spec fn spec_status_field(j: Json) -> Option<Option<EpisodeActionType>> {
    match spec_opt_str(j, "status"@) {
        Some(None) => Some(None),
        Some(Some(s)) => match spec_action_of_wire(s) {
            Some(a) => Some(Some(a)),
            None => None,
        },
        None => None,
    }
}

/// The episode update a JSON document denotes, if it has the expected
/// shape.
pub open spec fn spec_episode_update(j: Json) -> Option<EpisodeUpdateView> {
    match (str_field(j, "title"@), spec_url_field(j, "url"@), str_field(j, "podcast_title"@),
    spec_url_field(j, "podcast_url"@), str_field(j, "description"@), spec_url_field(j, "website"@),
    spec_url_field(j, "mygpo_link"@), spec_released_field(j), spec_status_field(j)) {
        (
            Some(title),
            Some(url),
            Some(podcast_title),
            Some(podcast_url),
            Some(description),
            Some(website),
            Some(mygpo_link),
            Some(released),
            Some(status),
        ) => Some(
            EpisodeUpdateView {
                title,
                url,
                podcast_title,
                podcast_url,
                description,
                website,
                mygpo_link,
                released,
                status,
            },
        ),
        _ => None,
    }
}

/// Decodes one episode update object.
pub fn decode_episode_update(v: &serde_json::Value) -> (r: Result<EpisodeUpdate, ClientError>)
    ensures
        match spec_episode_update(json_of(*v)) {
            Some(ev) => r matches Ok(e) && e@ == ev,
            None => r matches Err(e) && e is UnexpectedResponse,
        },
{
    let title = match get_str_field(v, "title") {
        Ok(s) => s,
        Err(e) => {
            return Err(e);
        },
    };
    let url = match get_url_field(v, "url") {
        Ok(s) => s,
        Err(e) => {
            return Err(e);
        },
    };
    let podcast_title = match get_str_field(v, "podcast_title") {
        Ok(s) => s,
        Err(e) => {
            return Err(e);
        },
    };
    let podcast_url = match get_url_field(v, "podcast_url") {
        Ok(s) => s,
        Err(e) => {
            return Err(e);
        },
    };
    let description = match get_str_field(v, "description") {
        Ok(s) => s,
        Err(e) => {
            return Err(e);
        },
    };
    let website = match get_url_field(v, "website") {
        Ok(s) => s,
        Err(e) => {
            return Err(e);
        },
    };
    let mygpo_link = match get_url_field(v, "mygpo_link") {
        Ok(s) => s,
        Err(e) => {
            return Err(e);
        },
    };
    let released_text = match get_str_field(v, "released") {
        Ok(s) => s,
        Err(e) => {
            return Err(e);
        },
    };
    let released = match ReleaseTime::parse(released_text.as_str()) {
        Some(t) => t,
        None => {
            return Err(ClientError::UnexpectedResponse);
        },
    };
    let status = match get_opt_str_field(v, "status") {
        Ok(Some(s)) => match EpisodeActionType::from_wire(s.as_str()) {
            Some(a) => Some(a),
            None => {
                return Err(ClientError::UnexpectedResponse);
            },
        },
        Ok(None) => None,
        Err(e) => {
            return Err(e);
        },
    };
    Ok(
        EpisodeUpdate {
            title,
            url,
            podcast_title,
            podcast_url,
            description,
            website,
            mygpo_link,
            released,
            status,
        },
    )
}

/// The episode update list a JSON array denotes.
pub open spec fn spec_episode_list(elems: Seq<Json>) -> Option<Seq<EpisodeUpdateView>>
    decreases elems.len(),
{
    if elems.len() == 0 {
        Some(Seq::empty())
    } else {
        match (spec_episode_list(elems.take(elems.len() - 1)), spec_episode_update(elems.last())) {
            (Some(es), Some(e)) => Some(es.push(e)),
            _ => None,
        }
    }
}

/// The episode update list a JSON document denotes, if it is an array of
/// episode objects.
pub open spec fn spec_episode_updates(j: Json) -> Option<Seq<EpisodeUpdateView>> {
    match j {
        Json::Arr(elems) => spec_episode_list(elems),
        _ => None,
    }
}

/// The views of an episode update vector.
pub open spec fn episodes_view(es: Seq<EpisodeUpdate>) -> Seq<EpisodeUpdateView> {
    es.map_values(|e: EpisodeUpdate| e@)
}

/// A list whose element fails to decode fails to decode as a whole.
proof fn lemma_episode_list_fail(elems: Seq<Json>, i: int)
    requires
        0 <= i < elems.len(),
        spec_episode_update(elems[i]) is None,
    ensures
        spec_episode_list(elems) is None,
    decreases elems.len(),
{
    if i < elems.len() - 1 {
        lemma_episode_list_fail(elems.take(elems.len() - 1), i);
    }
}

/// Decodes a JSON array of episode update objects.
pub fn decode_episode_array(v: &serde_json::Value) -> (r: Result<Vec<EpisodeUpdate>, ClientError>)
    ensures
        match spec_episode_updates(json_of(*v)) {
            None => r matches Err(e) && e is UnexpectedResponse,
            Some(es) => r matches Ok(o) && episodes_view(o@) == es,
        },
{
    let arr = match v.as_array() {
        Some(a) => a,
        None => {
            return Err(ClientError::UnexpectedResponse);
        },
    };
    let ghost elems = json_of(*v)->Arr_0;
    let mut out: Vec<EpisodeUpdate> = Vec::new();
    let mut i: usize = 0;
    while i < arr.len()
        invariant
            i <= arr.len(),
            arr@.len() == elems.len(),
            forall|k: int| 0 <= k < elems.len() ==> json_of(#[trigger] arr@[k]) == elems[k],
            json_of(*v) == Json::Arr(elems),
            spec_episode_list(elems.take(i as int)) == Some(episodes_view(out@)),
        decreases arr.len() - i,
    {
        match decode_episode_update(&arr[i]) {
            Ok(e) => {
                let ghost prev = out@;
                out.push(e);
                proof {
                    assert(elems.take(i + 1 as int).take(i as int) =~= elems.take(i as int));
                    assert(elems.take(i + 1 as int).last() == elems[i as int]);
                    assert(episodes_view(out@) =~= episodes_view(prev).push(out@.last()@));
                    assert(spec_episode_list(elems.take(i + 1 as int)) == Some(
                        episodes_view(out@),
                    ));
                }
            },
            Err(e) => {
                proof {
                    lemma_episode_list_fail(elems, i as int);
                }
                return Err(e);
            },
        }
        i = i + 1;
    }
    proof {
        assert(elems.take(arr.len() as int) =~= elems);
    }
    Ok(out)
}

/// The ghost state of a [`DeviceUpdates`].
pub struct DeviceUpdatesView {
    pub add: Seq<PodcastView>,
    pub rem: Seq<Seq<char>>,
    pub updates: Seq<EpisodeUpdateView>,
    pub timestamp: u64,
}

/// What the service answers to a device update query.
#[derive(Clone, Debug)]
pub struct DeviceUpdates {
    /// Subscriptions to be added, as full podcast records.
    pub add: Vec<Podcast>,
    /// Feed URLs to be unsubscribed, in canonical form.
    pub rem: Vec<String>,
    /// Updated episodes.
    pub updates: Vec<EpisodeUpdate>,
    /// Server-issued timestamp: replay it verbatim as `since` on the next
    /// query.
    pub timestamp: u64,
}

impl View for DeviceUpdates {
    type V = DeviceUpdatesView;

    open spec fn view(&self) -> DeviceUpdatesView {
        DeviceUpdatesView {
            add: podcasts_view(self.add@),
            rem: strings_view(self.rem@),
            updates: episodes_view(self.updates@),
            timestamp: self.timestamp,
        }
    }
}

/// The device updates a JSON document denotes.
pub open spec fn spec_device_updates(j: Json) -> Option<DeviceUpdatesView> {
    match (json_field(j, "add"@), json_field(j, "rem"@), json_field(j, "updates"@), u64_field(
        j,
        "timestamp"@,
    )) {
        (Some(add_j), Some(rem_j), Some(updates_j), Some(ts)) => match (spec_podcasts(add_j),
        spec_url_array(rem_j), spec_episode_updates(updates_j)) {
            (Some(add), Some(rem), Some(updates)) => Some(
                DeviceUpdatesView { add, rem, updates, timestamp: ts },
            ),
            _ => None,
        },
        _ => None,
    }
}

/// Decodes the response of the device updates endpoint.
pub fn decode_device_updates(body: &str) -> (r: Result<DeviceUpdates, ClientError>)
    ensures
        match parsed_json(body@) {
            None => r matches Err(e) && e is Json,
            Some(j) => match spec_device_updates(j) {
                None => r matches Err(e) && e is UnexpectedResponse,
                Some(uv) => r matches Ok(u) && u@ == uv,
            },
        },
{
    let parsed = match parse_json(body) {
        Ok(v) => v,
        Err(e) => {
            return Err(ClientError::Json(e));
        },
    };
    let add = match json_get(&parsed, "add") {
        Some(f) => match decode_podcast_array(f) {
            Ok(ps) => ps,
            Err(e) => {
                return Err(e);
            },
        },
        None => {
            return Err(ClientError::UnexpectedResponse);
        },
    };
    let rem = match json_get(&parsed, "rem") {
        Some(f) => match decode_url_array(f) {
            Ok(us) => us,
            Err(e) => {
                return Err(e);
            },
        },
        None => {
            return Err(ClientError::UnexpectedResponse);
        },
    };
    let updates = match json_get(&parsed, "updates") {
        Some(f) => match decode_episode_array(f) {
            Ok(es) => es,
            Err(e) => {
                return Err(e);
            },
        },
        None => {
            return Err(ClientError::UnexpectedResponse);
        },
    };
    let timestamp = match get_u64_field(&parsed, "timestamp") {
        Ok(n) => n,
        Err(e) => {
            return Err(e);
        },
    };
    Ok(DeviceUpdates { add, rem, updates, timestamp })
}

/// The URL of the device updates endpoint.
pub open spec fn spec_device_updates_url(username: Seq<char>, device_id: Seq<char>) -> Seq<char> {
    "https://gpodder.net/updates/"@ + username + "/"@ + device_id + ".json"@
}

/// Builds the URL of the device updates endpoint.
pub fn device_updates_url(username: &str, device_id: &str) -> (r: String)
    ensures
        r@ == spec_device_updates_url(username@, device_id@),
{
    let mut out = String::from_str("https://gpodder.net/updates/");
    out.append(username);
    out.append("/");
    out.append(device_id);
    out.append(".json");
    proof {
        assert(out@ =~= spec_device_updates_url(username@, device_id@));
    }
    out
}

/// Querying what changed for a device since a known timestamp.
pub trait GetDeviceUpdates {
    /// Asks the service what the device should add, remove and refresh
    /// since the given server-issued timestamp (`0` for a full sync);
    /// `include_actions` asks the server to attach the latest episode
    /// actions. Every returned value is the faithful decoding of some
    /// response text that parses as a device-updates document.
    fn get_device_updates(&self, since: u64, include_actions: bool) -> (r: Result<
        DeviceUpdates,
        ClientError,
    >)
        ensures
            r matches Ok(u) ==> exists|body: Seq<char>|
                #[trigger] parsed_json(body) is Some && spec_device_updates(
                    parsed_json(body).unwrap(),
                ) == Some(u@),
    ;
}

impl GetDeviceUpdates for DeviceClient {
    fn get_device_updates(&self, since: u64, include_actions: bool) -> (r: Result<
        DeviceUpdates,
        ClientError,
    >) {
        let url = device_updates_url(
            self.authenticated_client.username.as_str(),
            self.device_id.as_str(),
        );
        let mut params: Vec<(String, String)> = Vec::new();
        params.push((String::from_str("since"), u64_string(since)));
        params.push((String::from_str("include_actions"), bool_string(include_actions)));
        let body = match self.get_with_query(url.as_str(), &params) {
            Ok(response) => response.1,
            Err(e) => {
                return Err(e);
            },
        };
        match decode_device_updates(body.as_str()) {
            Ok(u) => {
                proof {
                    assert(parsed_json(body@) is Some && spec_device_updates(
                        parsed_json(body@).unwrap(),
                    ) == Some(u@));
                }
                Ok(u)
            },
            Err(e) => Err(e),
        }
    }
}

} // verus!
