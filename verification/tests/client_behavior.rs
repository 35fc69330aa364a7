use spotify_client::client::SpotifyClient;
use spotify_client::error::SpotifyApiError;
use spotify_client::request::HttpMethod;
use spotify_client::response::SpotifyResponseKind;

#[test]
fn token_store_lifecycle() {
    let mut client = SpotifyClient::new();
    assert!(!client.has_token());
    client.update_token("abc".to_string());
    assert!(client.has_token());
    client.clear_token();
    assert!(!client.has_token());
    client.update_token("first".to_string());
    client.update_token("second".to_string());
    assert!(client.has_token());
}

#[test]
fn authenticated_without_token_fails_fast() {
    let client = SpotifyClient::new();
    let req = client.get_artist("xyz");
    let res = req.authenticated(&client);
    assert!(matches!(res, Err(SpotifyApiError::NoToken)));
}

#[test]
fn authenticated_injects_bearer_token() {
    let mut client = SpotifyClient::new();
    client.update_token("sekrit".to_string());
    let req = client.get_artist("xyz").authenticated(&client).unwrap();
    assert_eq!(req.auth_header.as_deref(), Some("Bearer sekrit"));
}

#[test]
fn etag_sets_conditional_header() {
    let client = SpotifyClient::new();
    let req = client.get_album("a1").etag(Some("W/\"v1\"".to_string()));
    assert_eq!(req.if_none_match.as_deref(), Some("W/\"v1\""));
    let req = client.get_album("a1").etag(None);
    assert!(req.if_none_match.is_none());
}

#[test]
fn success_carries_body_and_default_max_age() {
    let mut client = SpotifyClient::new();
    client.update_token("tok".to_string());
    let res = client
        .handle_response(200, None, None, Some("{\"id\":\"1\"}".to_string()))
        .unwrap();
    match res.kind {
        SpotifyResponseKind::Content(text) => assert_eq!(text, "{\"id\":\"1\"}"),
        SpotifyResponseKind::NotModified => panic!("expected a body"),
    }
    assert_eq!(res.max_age, 10);
    assert!(res.etag.is_none());
    assert!(client.has_token());
}

#[test]
fn success_parses_max_age_and_keeps_etag() {
    let mut client = SpotifyClient::new();
    let res = client
        .handle_response(
            204,
            Some("\"tag-7\"".to_string()),
            Some("private, max-age=3600".to_string()),
            Some("".to_string()),
        )
        .unwrap();
    assert_eq!(res.max_age, 3600);
    assert_eq!(res.etag.as_deref(), Some("\"tag-7\""));
}

#[test]
fn malformed_max_age_falls_back_to_default() {
    let mut client = SpotifyClient::new();
    let res = client
        .handle_response(
            200,
            None,
            Some("max-age=later".to_string()),
            Some("x".to_string()),
        )
        .unwrap();
    assert_eq!(res.max_age, 10);
}

#[test]
fn not_modified_carries_no_body_but_keeps_metadata() {
    let mut client = SpotifyClient::new();
    let res = client
        .handle_response(
            304,
            Some("\"tag-9\"".to_string()),
            Some("max-age=60".to_string()),
            None,
        )
        .unwrap();
    assert!(matches!(res.kind, SpotifyResponseKind::NotModified));
    assert_eq!(res.max_age, 60);
    assert_eq!(res.etag.as_deref(), Some("\"tag-9\""));
}

#[test]
fn unauthorized_clears_token_and_reports_invalid() {
    let mut client = SpotifyClient::new();
    client.update_token("stale".to_string());
    let res = client.handle_response(401, None, None, None);
    assert!(matches!(res, Err(SpotifyApiError::InvalidToken)));
    assert!(!client.has_token());
}

#[test]
fn other_status_carries_exact_code() {
    let mut client = SpotifyClient::new();
    let res = client.handle_response(503, None, None, None);
    match res {
        Err(SpotifyApiError::BadStatus(code)) => assert_eq!(code, 503),
        _ => panic!("expected BadStatus"),
    }
    let res = client.handle_response(418, None, None, None);
    match res {
        Err(SpotifyApiError::BadStatus(code)) => assert_eq!(code, 418),
        _ => panic!("expected BadStatus"),
    }
}

#[test]
fn no_body_path_reduces_to_success_or_failure() {
    let mut client = SpotifyClient::new();
    client.update_token("tok".to_string());
    assert!(client.handle_response_no_body(200).is_ok());
    assert!(client.handle_response_no_body(304).is_ok());
    let res = client.handle_response_no_body(401);
    assert!(matches!(res, Err(SpotifyApiError::InvalidToken)));
    assert!(!client.has_token());
    let res = client.handle_response_no_body(500);
    assert!(matches!(res, Err(SpotifyApiError::BadStatus(500))));
}

#[test]
fn request_builder_assembles_full_uri() {
    let client = SpotifyClient::new();
    let req = client.get_artist("42");
    assert_eq!(req.uri, "https://api.spotify.com/v1/artists/42");
    assert_eq!(req.method, HttpMethod::Get);
    assert!(req.auth_header.is_none());
    assert!(req.if_none_match.is_none());
}

#[test]
fn error_messages_match_their_kind() {
    assert_eq!(SpotifyApiError::NoToken.message(), "No token");
    assert_eq!(SpotifyApiError::InvalidToken.message(), "Invalid token");
    assert_eq!(
        SpotifyApiError::NoContent.message(),
        "No content from request"
    );
    assert_eq!(
        SpotifyApiError::BadStatus(404).message(),
        "Request failed with status 404"
    );
    assert_eq!(
        SpotifyApiError::ClientError("boom".to_string()).message(),
        "boom"
    );
}
