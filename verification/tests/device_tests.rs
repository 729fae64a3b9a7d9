use std::cmp::Ordering;
use std::collections::hash_map::DefaultHasher;
use std::hash::Hasher;

use mygpoclient::datetime::ReleaseTime;
use mygpoclient::device::decode_device;
use mygpoclient::device::decode_device_updates;
use mygpoclient::device::decode_devices;
use mygpoclient::device::device_data_body;
use mygpoclient::device::Device;
use mygpoclient::device::DeviceType;
use mygpoclient::episode::EpisodeActionType;
use mygpoclient::error::ClientError;

#[test]
fn equal_device_means_equal_hash() {
    let device1 = Device {
        id: String::from("abcdef"),
        caption: String::from("gPodder on my Lappy"),
        device_type: DeviceType::Laptop,
        subscriptions: 27,
    };
    let device2 = Device {
        id: String::from("abcdef"),
        caption: String::from("unnamed"),
        device_type: DeviceType::Other,
        subscriptions: 1,
    };

    assert_eq!(device1, device2);
    assert_eq!(device1.partial_cmp(&device2), Some(Ordering::Equal));

    let mut hasher1 = DefaultHasher::new();
    device1.hash(&mut hasher1);

    let mut hasher2 = DefaultHasher::new();
    device2.hash(&mut hasher2);

    assert_eq!(hasher1.finish(), hasher2.finish());
}

#[test]
fn not_equal_devices_have_non_equal_ordering() {
    let device1 = Device {
        id: String::from("abcdef"),
        caption: String::from("gPodder on my Lappy"),
        device_type: DeviceType::Laptop,
        subscriptions: 27,
    };
    let device2 = Device {
        id: String::from("phone-au90f923023.203f9j23f"),
        caption: String::from("My Phone"),
        device_type: DeviceType::Mobile,
        subscriptions: 5,
    };

    assert_ne!(device1, device2);
    assert_eq!(device1.partial_cmp(&device2), Some(Ordering::Less));

    let mut hasher1 = DefaultHasher::new();
    device1.hash(&mut hasher1);

    let mut hasher2 = DefaultHasher::new();
    device2.hash(&mut hasher2);

    assert_ne!(hasher1.finish(), hasher2.finish());
}

#[test]
fn device_display() {
    let device = Device {
        id: String::from("abcdef"),
        caption: String::from("gPodder on my Lappy"),
        device_type: DeviceType::Laptop,
        subscriptions: 27,
    };

    assert_eq!(
        "Laptop gPodder on my Lappy (id=abcdef)".to_owned(),
        device.display_string()
    );
}

#[test]
fn device_json_round_trip() {
    let device = Device {
        id: String::from("phone-1"),
        caption: String::from("My \"smart\" phone"),
        device_type: DeviceType::Mobile,
        subscriptions: 42,
    };
    let text = device.to_json_string();
    let value: serde_json::Value = serde_json::from_str(&text).unwrap();
    let back = decode_device(&value).unwrap();
    assert_eq!(back.id, device.id);
    assert_eq!(back.caption, device.caption);
    assert_eq!(back.device_type, device.device_type);
    assert_eq!(back.subscriptions, device.subscriptions);
}

#[test]
fn device_type_wire_names() {
    assert_eq!(DeviceType::Desktop.wire_name(), "desktop");
    assert_eq!(DeviceType::Laptop.wire_name(), "laptop");
    assert_eq!(DeviceType::Mobile.wire_name(), "mobile");
    assert_eq!(DeviceType::Server.wire_name(), "server");
    assert_eq!(DeviceType::Other.wire_name(), "other");
    assert_eq!(DeviceType::from_wire("mobile"), Some(DeviceType::Mobile));
    assert_eq!(DeviceType::from_wire("tablet"), None);
}

#[test]
fn device_data_body_omits_absent_fields() {
    assert_eq!(device_data_body(&None, &None), "{}");
    assert_eq!(
        device_data_body(&Some("My Phone".to_owned()), &None),
        r#"{"caption":"My Phone"}"#
    );
    assert_eq!(
        device_data_body(&None, &Some(DeviceType::Mobile)),
        r#"{"type":"mobile"}"#
    );
    assert_eq!(
        device_data_body(&Some("My Phone".to_owned()), &Some(DeviceType::Mobile)),
        r#"{"caption":"My Phone","type":"mobile"}"#
    );
}

#[test]
fn device_data_body_escapes_caption() {
    assert_eq!(
        device_data_body(&Some("a\"b\\c".to_owned()), &None),
        r#"{"caption":"a\"b\\c"}"#
    );
}

#[test]
fn decode_devices_reads_a_device_list() {
    let body = r#"[
        {"id":"abcdef","caption":"gPodder on my Lappy","type":"laptop","subscriptions":27},
        {"id":"phone","caption":"My Phone","type":"mobile","subscriptions":5}
    ]"#;
    let devices = decode_devices(body).unwrap();
    assert_eq!(devices.len(), 2);
    assert_eq!(devices[0].id, "abcdef");
    assert_eq!(devices[0].device_type, DeviceType::Laptop);
    assert_eq!(devices[0].subscriptions, 27);
    assert_eq!(devices[1].id, "phone");
    assert_eq!(devices[1].device_type, DeviceType::Mobile);
}

#[test]
fn decode_devices_rejects_bad_bodies() {
    assert!(matches!(
        decode_devices("not json at all"),
        Err(ClientError::Json(_))
    ));
    assert!(matches!(
        decode_devices("{}"),
        Err(ClientError::UnexpectedResponse)
    ));
    assert!(matches!(
        decode_devices(r#"[{"id":"a","caption":"b","type":"toaster","subscriptions":1}]"#),
        Err(ClientError::UnexpectedResponse)
    ));
    assert!(matches!(
        decode_devices(r#"[{"id":"a","caption":"b","type":"mobile","subscriptions":70000}]"#),
        Err(ClientError::UnexpectedResponse)
    ));
}

#[test]
fn decode_device_updates_reads_all_parts() {
    let body = r#"{
        "add": [{
            "url": "http://example.com/feed.rss",
            "title": "Cool Pod",
            "author": null,
            "description": "desc",
            "subscribers": 10,
            "subscribers_last_week": 9,
            "logo_url": null,
            "scaled_logo_url": null,
            "website": null,
            "mygpo_link": "http://gpodder.net/podcast/1"
        }],
        "rem": ["http://example.net/foo.xml"],
        "updates": [{
            "title": "Episode 1",
            "url": "http://example.com/ep1.mp3",
            "podcast_title": "Cool Pod",
            "podcast_url": "http://example.com/feed.rss",
            "description": "an episode",
            "website": "http://example.com/",
            "mygpo_link": "http://gpodder.net/e/1",
            "released": "2009-12-12T09:00:00",
            "status": "play"
        }],
        "timestamp": 1262103016
    }"#;
    let updates = decode_device_updates(body).unwrap();
    assert_eq!(updates.timestamp, 1262103016);
    assert_eq!(updates.add.len(), 1);
    assert_eq!(updates.add[0].url, "http://example.com/feed.rss");
    assert_eq!(updates.add[0].author, None);
    assert_eq!(updates.rem, vec!["http://example.net/foo.xml".to_owned()]);
    assert_eq!(updates.updates.len(), 1);
    let episode = &updates.updates[0];
    assert_eq!(episode.title, "Episode 1");
    assert_eq!(episode.status, Some(EpisodeActionType::Play));
    assert_eq!(
        episode.released,
        ReleaseTime {
            year: 2009,
            month: 12,
            day: 12,
            hour: 9,
            minute: 0,
            second: 0,
        }
    );
}

#[test]
fn episode_action_wire_names() {
    assert_eq!(EpisodeActionType::Play.wire_name(), "play");
    assert_eq!(
        EpisodeActionType::from_wire("download"),
        Some(EpisodeActionType::Download)
    );
    assert_eq!(EpisodeActionType::from_wire("flattr"), None);
}
