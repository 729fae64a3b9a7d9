use mygpoclient::query::append_query;
use mygpoclient::text::bool_string;
use mygpoclient::text::u64_string;

fn query_of(params: Vec<(String, String)>) -> String {
    let mut out = String::new();
    append_query(&mut out, &params);
    out
}

#[test]
fn query_keeps_caller_order() {
    let params = vec![
        ("since".to_owned(), "100".to_owned()),
        ("include_actions".to_owned(), "true".to_owned()),
        ("since".to_owned(), "200".to_owned()),
    ];
    assert_eq!(
        query_of(params),
        "?since=100&include_actions=true&since=200"
    );
    let reversed = vec![
        ("include_actions".to_owned(), "true".to_owned()),
        ("since".to_owned(), "100".to_owned()),
    ];
    assert_eq!(query_of(reversed), "?include_actions=true&since=100");
}

#[test]
fn query_of_no_params_is_empty() {
    assert_eq!(query_of(vec![]), "");
}

#[test]
fn query_percent_encodes_values() {
    let params = vec![("q".to_owned(), "a b/c".to_owned())];
    assert_eq!(query_of(params), "?q=a%20b%2Fc");
    let unicode = vec![("u".to_owned(), "\u{e4}".to_owned())];
    assert_eq!(query_of(unicode), "?u=%C3%A4");
    let untouched = vec![("k".to_owned(), "AZaz09-_.~".to_owned())];
    assert_eq!(query_of(untouched), "?k=AZaz09-_.~");
}

#[test]
fn decimal_rendering() {
    assert_eq!(u64_string(0), "0");
    assert_eq!(u64_string(42), "42");
    assert_eq!(u64_string(u64::MAX), "18446744073709551615");
}

#[test]
fn boolean_rendering() {
    assert_eq!(bool_string(true), "true");
    assert_eq!(bool_string(false), "false");
}

#[test]
fn empty_snapshot_body_is_an_empty_array() {
    let mut body = String::new();
    mygpoclient::text::append_json_str_array(&mut body, &vec![]);
    assert_eq!(body, "[]");
    let mut one = String::new();
    mygpoclient::text::append_json_str_array(&mut one, &vec!["http://a.com/feed".to_owned()]);
    assert_eq!(one, r#"["http://a.com/feed"]"#);
}
