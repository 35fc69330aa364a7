use spotify_client::cache_control::parse_cache_control;
use spotify_client::client::SpotifyClient;
use spotify_client::response::SpotifyResponseKind;

#[test]
fn cache_control_simple_directive() {
    assert_eq!(parse_cache_control("max-age=60"), Some(60));
}

#[test]
fn cache_control_later_directive_with_spaces() {
    assert_eq!(
        parse_cache_control("private, max-age=31536000, no-transform"),
        Some(31536000)
    );
}

#[test]
fn cache_control_without_max_age() {
    assert_eq!(parse_cache_control("no-store, no-cache"), None);
}

#[test]
fn cache_control_malformed_number() {
    assert_eq!(parse_cache_control("max-age=soon"), None);
    assert_eq!(parse_cache_control("max-age="), None);
    assert_eq!(parse_cache_control("max-age=18446744073709551616"), None);
}

#[test]
fn cache_control_extremes_and_signs() {
    assert_eq!(
        parse_cache_control("max-age=18446744073709551615"),
        Some(18446744073709551615)
    );
    assert_eq!(parse_cache_control("max-age=+15"), Some(15));
    assert_eq!(parse_cache_control("max-age=0"), Some(0));
}

#[test]
fn cache_control_tolerates_leading_whitespace() {
    assert_eq!(parse_cache_control("no-cache,\t max-age=42"), Some(42));
    assert_eq!(parse_cache_control(""), None);
}

#[test]
fn cache_control_takes_text_between_first_two_equals() {
    assert_eq!(parse_cache_control("max-age=10=20"), Some(10));
}

#[test]
fn cache_control_first_match_wins() {
    assert_eq!(parse_cache_control("max-age=5, max-age=9"), Some(5));
    assert_eq!(parse_cache_control("s-maxage=3, max-age=7"), Some(7));
}

#[test]
fn deserialize_malformed_json_is_absent_not_an_error() {
    let mut client = SpotifyClient::new();
    let res = client
        .handle_response(200, None, None, Some("{not json at all".to_string()))
        .unwrap();
    assert!(res.deserialize().is_none());
}

#[test]
fn deserialize_valid_json_yields_a_value() {
    let mut client = SpotifyClient::new();
    let res = client
        .handle_response(200, None, None, Some("{\"name\":\"x\",\"n\":3}".to_string()))
        .unwrap();
    let value = res.deserialize().expect("valid JSON must parse");
    assert_eq!(value["name"], "x");
    assert_eq!(value["n"], 3);
}

#[test]
fn deserialize_not_modified_is_absent() {
    let mut client = SpotifyClient::new();
    let res = client.handle_response(304, None, None, None).unwrap();
    assert!(matches!(res.kind, SpotifyResponseKind::NotModified));
    assert!(res.deserialize().is_none());
}
