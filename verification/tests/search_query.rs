use spotify_client::search::SearchQuery;
use spotify_client::search::SearchType;

#[test]
fn test_search_query() {
    let query = SearchQuery {
        query: "test".to_string(),
        types: vec![SearchType::Album, SearchType::Artist],
        limit: 5,
        offset: 0,
    };

    assert_eq!(
        query.into_query_string(),
        "type=album,artist&q=test&offset=0&limit=5&market=from_token"
    );
}

#[test]
fn test_search_query_spaces_and_stuff() {
    let query = SearchQuery {
        query: "test??? wow".to_string(),
        types: vec![SearchType::Album],
        limit: 5,
        offset: 0,
    };

    assert_eq!(
        query.into_query_string(),
        "type=album&q=test+wow&offset=0&limit=5&market=from_token"
    );
}

#[test]
fn test_search_query_encoding() {
    let query = SearchQuery {
        query: "кириллица".to_string(),
        types: vec![SearchType::Album],
        limit: 5,
        offset: 0,
    };

    assert_eq!(query.into_query_string(), "type=album&q=%D0%BA%D0%B8%D1%80%D0%B8%D0%BB%D0%BB%D0%B8%D1%86%D0%B0&offset=0&limit=5&market=from_token");
}

#[test]
fn test_search_query_empty_types_and_text() {
    let query = SearchQuery {
        query: "".to_string(),
        types: vec![],
        limit: 1,
        offset: 0,
    };

    assert_eq!(
        query.into_query_string(),
        "type=&q=&offset=0&limit=1&market=from_token"
    );
}

#[test]
fn test_search_query_large_paging() {
    let query = SearchQuery {
        query: "a b".to_string(),
        types: vec![SearchType::Artist],
        limit: 18446744073709551615,
        offset: 1234567890,
    };

    assert_eq!(
        query.into_query_string(),
        "type=artist&q=a+b&offset=1234567890&limit=18446744073709551615&market=from_token"
    );
}
