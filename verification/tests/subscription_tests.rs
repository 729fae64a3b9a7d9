use std::cmp::Ordering;
use std::collections::hash_map::DefaultHasher;
use std::hash::Hasher;

use mygpoclient::error::ClientError;
use mygpoclient::subscription::decode_changes_response;
use mygpoclient::subscription::decode_podcast;
use mygpoclient::subscription::decode_podcasts;
use mygpoclient::subscription::decode_upload_response;
use mygpoclient::subscription::delta_body;
use mygpoclient::subscription::GetSubscriptionChangesResponse;
use mygpoclient::subscription::Podcast;
use mygpoclient::subscription::UploadSubscriptionChangesResponse;

#[test]
fn equal_subscription_means_equal_hash() {
    let subscription1 = Podcast {
        url: "http://goinglinux.com/mp3podcast.xml".to_owned(),
        author: None,
        website: Some("http://www.linuxgeekdom.com".to_owned()),
        mygpo_link: "http://gpodder.net/podcast/64439".to_owned(),
        description: String::from("Linux Geekdom"),
        subscribers: 0,
        title: String::from("Linux Geekdom"),
        subscribers_last_week: 0,
        logo_url: None,
        scaled_logo_url: None,
    };
    let subscription2 = Podcast {
        url: "http://goinglinux.com/mp3podcast.xml".to_owned(),
        author: None,
        website: Some("http://goinglinux.com".to_owned()),
        mygpo_link: "http://gpodder.net/podcast/11171".to_owned(),
        description: String::from("Going Linux"),
        subscribers: 571,
        title: String::from("Going Linux"),
        subscribers_last_week: 571,
        logo_url: Some("http://goinglinux.com/images/GoingLinux80.png".to_owned()),
        scaled_logo_url: Some("http://goinglinux.com/images/GoingLinux80.png".to_owned()),
    };

    assert_eq!(subscription1, subscription2);
    assert_eq!(
        subscription1.partial_cmp(&subscription2),
        Some(Ordering::Equal)
    );

    let mut hasher1 = DefaultHasher::new();
    subscription1.hash(&mut hasher1);

    let mut hasher2 = DefaultHasher::new();
    subscription2.hash(&mut hasher2);

    assert_eq!(hasher1.finish(), hasher2.finish());
}

#[test]
fn display_podcast() {
    let subscription = Podcast {
        url: "http://goinglinux.com/mp3podcast.xml".to_owned(),
        author: None,
        website: Some("http://goinglinux.com".to_owned()),
        mygpo_link: "http://gpodder.net/podcast/11171".to_owned(),
        description: String::from("Going Linux"),
        subscribers: 571,
        title: String::from("Going Linux"),
        subscribers_last_week: 571,
        logo_url: Some("http://goinglinux.com/images/GoingLinux80.png".to_owned()),
        scaled_logo_url: Some("http://goinglinux.com/images/GoingLinux80.png".to_owned()),
    };

    assert_eq!(
        "Going Linux: Going Linux <http://goinglinux.com/mp3podcast.xml>".to_owned(),
        subscription.display_string()
    );
}

#[test]
fn display_upload_subscription_changes_response() {
    let update_urls = vec![(
        "http://feeds2.feedburner.com/LinuxOutlaws?format=xml".to_owned(),
        "http://feeds.feedburner.com/LinuxOutlaws".to_owned(),
    )];
    let upload_response = UploadSubscriptionChangesResponse {
        timestamp: 100,
        update_urls: update_urls.clone(),
    };

    assert_eq!(
        format!("100: {:?}", update_urls),
        upload_response.display_string()
    );
}

#[test]
fn display_get_subscription_changes_response() {
    let add = vec![
        "http://example.com/feed.rss".to_owned(),
        "http://example.org/podcast.php".to_owned(),
    ];
    let remove = vec!["http://example.net/foo.xml".to_owned()];
    let get_response = GetSubscriptionChangesResponse {
        timestamp: 100,
        add: add.clone(),
        remove: remove.clone(),
    };
    assert_eq!(
        format!("100: add{:?}, remove{:?}", add, remove),
        get_response.display_string()
    );
}

#[test]
fn podcast_json_round_trip() {
    let podcast = Podcast {
        url: "http://goinglinux.com/mp3podcast.xml".to_owned(),
        title: "Going Linux".to_owned(),
        author: Some("Larry & Tom".to_owned()),
        description: "Linux for everyone".to_owned(),
        subscribers: 571,
        subscribers_last_week: 570,
        logo_url: Some("http://goinglinux.com/images/GoingLinux80.png".to_owned()),
        scaled_logo_url: None,
        website: Some("http://goinglinux.com/".to_owned()),
        mygpo_link: "http://gpodder.net/podcast/11171".to_owned(),
    };
    let text = podcast.to_json_string();
    let value: serde_json::Value = serde_json::from_str(&text).unwrap();
    let back = decode_podcast(&value).unwrap();
    assert_eq!(back.url, podcast.url);
    assert_eq!(back.title, podcast.title);
    assert_eq!(back.author, podcast.author);
    assert_eq!(back.description, podcast.description);
    assert_eq!(back.subscribers, podcast.subscribers);
    assert_eq!(back.subscribers_last_week, podcast.subscribers_last_week);
    assert_eq!(back.logo_url, podcast.logo_url);
    assert_eq!(back.scaled_logo_url, podcast.scaled_logo_url);
    assert_eq!(back.website, podcast.website);
    assert_eq!(back.mygpo_link, podcast.mygpo_link);
}

#[test]
fn delta_body_lists_both_sides() {
    let add = vec!["http://a.com/feed".to_owned()];
    let remove: Vec<String> = vec![];
    assert_eq!(
        delta_body(&add, &remove),
        r#"{"add":["http://a.com/feed"],"remove":[]}"#
    );
    let both = delta_body(
        &vec!["http://a.com/1".to_owned(), "http://a.com/2".to_owned()],
        &vec!["http://b.com/1".to_owned()],
    );
    assert_eq!(
        both,
        r#"{"add":["http://a.com/1","http://a.com/2"],"remove":["http://b.com/1"]}"#
    );
}

#[test]
fn decode_upload_response_normalizes_pairs() {
    let body = r#"{
        "timestamp": 1337,
        "update_urls": [
            ["http://feeds2.feedburner.com/LinuxOutlaws?format=xml",
             "http://feeds.feedburner.com/LinuxOutlaws"]
        ]
    }"#;
    let response = decode_upload_response(body).unwrap();
    assert_eq!(response.timestamp, 1337);
    assert_eq!(
        response.update_urls,
        vec![(
            "http://feeds2.feedburner.com/LinuxOutlaws?format=xml".to_owned(),
            "http://feeds.feedburner.com/LinuxOutlaws".to_owned(),
        )]
    );
}

#[test]
fn decode_changes_response_reads_both_lists() {
    let body = r#"{"timestamp": 20, "add": ["http://example.com/feed.rss"], "remove": []}"#;
    let response = decode_changes_response(body).unwrap();
    assert_eq!(response.timestamp, 20);
    assert_eq!(response.add, vec!["http://example.com/feed.rss".to_owned()]);
    assert!(response.remove.is_empty());
}

#[test]
fn decode_changes_response_with_empty_delta() {
    let body = r#"{"timestamp": 21, "add": [], "remove": []}"#;
    let response = decode_changes_response(body).unwrap();
    assert_eq!(response.timestamp, 21);
    assert!(response.add.is_empty());
    assert!(response.remove.is_empty());
}

#[test]
fn decode_podcasts_normalizes_feed_urls() {
    let body = r#"[{
        "url": "HTTP://Example.COM/feed.rss",
        "title": "t",
        "author": null,
        "description": "d",
        "subscribers": 1,
        "subscribers_last_week": 1,
        "logo_url": null,
        "scaled_logo_url": null,
        "website": null,
        "mygpo_link": "http://gpodder.net/podcast/1"
    }]"#;
    let podcasts = decode_podcasts(body).unwrap();
    assert_eq!(podcasts[0].url, "http://example.com/feed.rss");
}

#[test]
fn decode_podcasts_rejects_invalid_urls() {
    let body = r#"[{
        "url": "not a url",
        "title": "t",
        "author": null,
        "description": "d",
        "subscribers": 1,
        "subscribers_last_week": 1,
        "logo_url": null,
        "scaled_logo_url": null,
        "website": null,
        "mygpo_link": "http://gpodder.net/podcast/1"
    }]"#;
    assert!(matches!(
        decode_podcasts(body),
        Err(ClientError::UnexpectedResponse)
    ));
}

#[test]
fn absent_and_null_optional_fields_both_mean_none() {
    let body = r#"[{
        "url": "http://example.com/feed.rss",
        "title": "t",
        "description": "d",
        "subscribers": 1,
        "subscribers_last_week": 1,
        "logo_url": null,
        "mygpo_link": "http://gpodder.net/podcast/1"
    }]"#;
    let podcasts = decode_podcasts(body).unwrap();
    assert_eq!(podcasts[0].author, None);
    assert_eq!(podcasts[0].logo_url, None);
    assert_eq!(podcasts[0].website, None);
}
