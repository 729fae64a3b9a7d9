use std::cmp::Ordering;
use std::collections::hash_map::DefaultHasher;
use std::hash::Hasher;

use mygpoclient::suggestion::decode_suggestion;
use mygpoclient::suggestion::decode_suggestions;
use mygpoclient::suggestion::suggestions_url;
use mygpoclient::suggestion::Suggestion;

#[test]
fn equal_suggestion_means_equal_hash() {
    let suggestion1 = Suggestion {
        url: "http://goinglinux.com/mp3podcast.xml".to_owned(),
        website: "http://www.linuxgeekdom.com".to_owned(),
        mygpo_link: "http://gpodder.net/podcast/64439".to_owned(),
        description: String::from("Linux Geekdom"),
        subscribers: 0,
        title: String::from("Linux Geekdom"),
        subscribers_last_week: 0,
        logo_url: None,
    };
    let suggestion2 = Suggestion {
        url: "http://goinglinux.com/mp3podcast.xml".to_owned(),
        website: "http://goinglinux.com".to_owned(),
        mygpo_link: "http://gpodder.net/podcast/11171".to_owned(),
        description: String::from("Going Linux"),
        subscribers: 571,
        title: String::from("Going Linux"),
        subscribers_last_week: 571,
        logo_url: Some("http://goinglinux.com/images/GoingLinux80.png".to_owned()),
    };

    assert_eq!(suggestion1, suggestion2);
    assert_eq!(suggestion1.partial_cmp(&suggestion2), Some(Ordering::Equal));

    let mut hasher1 = DefaultHasher::new();
    suggestion1.hash(&mut hasher1);

    let mut hasher2 = DefaultHasher::new();
    suggestion2.hash(&mut hasher2);

    assert_eq!(hasher1.finish(), hasher2.finish());
}

#[test]
fn suggestion_display() {
    let suggestion = Suggestion {
        url: "http://goinglinux.com/mp3podcast.xml".to_owned(),
        website: "http://goinglinux.com".to_owned(),
        mygpo_link: "http://gpodder.net/podcast/11171".to_owned(),
        description: String::from("Going Linux"),
        subscribers: 571,
        title: String::from("Going Linux"),
        subscribers_last_week: 571,
        logo_url: Some("http://goinglinux.com/images/GoingLinux80.png".to_owned()),
    };

    assert_eq!(
        "Going Linux: Going Linux <http://goinglinux.com/mp3podcast.xml>".to_owned(),
        suggestion.display_string()
    );
}

#[test]
fn suggestion_json_round_trip() {
    let suggestion = Suggestion {
        url: "http://goinglinux.com/mp3podcast.xml".to_owned(),
        website: "http://goinglinux.com/".to_owned(),
        mygpo_link: "http://gpodder.net/podcast/11171".to_owned(),
        description: "Going Linux".to_owned(),
        subscribers: 571,
        title: "Going Linux".to_owned(),
        subscribers_last_week: 570,
        logo_url: None,
    };
    let text = suggestion.to_json_string();
    let value: serde_json::Value = serde_json::from_str(&text).unwrap();
    let back = decode_suggestion(&value).unwrap();
    assert_eq!(back.url, suggestion.url);
    assert_eq!(back.website, suggestion.website);
    assert_eq!(back.mygpo_link, suggestion.mygpo_link);
    assert_eq!(back.description, suggestion.description);
    assert_eq!(back.subscribers, suggestion.subscribers);
    assert_eq!(back.title, suggestion.title);
    assert_eq!(back.subscribers_last_week, suggestion.subscribers_last_week);
    assert_eq!(back.logo_url, suggestion.logo_url);
}

fn suggestion_object(n: u16) -> String {
    format!(
        r#"{{"website":"http://example.com/","mygpo_link":"http://gpodder.net/podcast/{n}","description":"pod {n}","subscribers":{n},"title":"pod {n}","url":"http://example.com/feed{n}.rss","subscribers_last_week":{n},"logo_url":null}}"#,
        n = n
    )
}

#[test]
fn suggestions_come_back_as_the_server_sent_them() {
    let body = format!(
        "[{},{},{},{},{}]",
        suggestion_object(1),
        suggestion_object(2),
        suggestion_object(3),
        suggestion_object(4),
        suggestion_object(5)
    );
    let suggestions = decode_suggestions(&body).unwrap();
    assert_eq!(suggestions.len(), 5);
    for (i, suggestion) in suggestions.iter().enumerate() {
        assert_eq!(suggestion.title, format!("pod {}", i + 1));
        assert_eq!(suggestion.url, format!("http://example.com/feed{}.rss", i + 1));
    }
}

#[test]
fn suggestions_url_carries_the_bound_verbatim() {
    assert_eq!(
        suggestions_url(3),
        "https://gpodder.net/suggestions/3.json"
    );
    assert_eq!(
        suggestions_url(255),
        "https://gpodder.net/suggestions/255.json"
    );
}
