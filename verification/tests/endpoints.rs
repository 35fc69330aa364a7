use spotify_client::client::SpotifyClient;
use spotify_client::request::HttpMethod;

#[test]
fn artist_albums_query_is_fully_encoded() {
    let client = SpotifyClient::new();
    let req = client.get_artist_albums("ab12", 0, 50);
    assert_eq!(
        req.uri,
        "https://api.spotify.com/v1/artists/ab12/albums?include_groups=album%2Csingle&country=from_token&offset=0&limit=50"
    );
    assert_eq!(req.method, HttpMethod::Get);
}

#[test]
fn top_tracks_pins_market_to_token() {
    let client = SpotifyClient::new();
    let req = client.get_artist_top_tracks("zz");
    assert_eq!(
        req.uri,
        "https://api.spotify.com/v1/artists/zz/top-tracks?market=from_token"
    );
}

#[test]
fn album_library_calls_use_the_right_verbs() {
    let client = SpotifyClient::new();
    let read = client.is_album_saved("a1");
    assert_eq!(
        read.uri,
        "https://api.spotify.com/v1/me/albums/contains?ids=a1"
    );
    assert_eq!(read.method, HttpMethod::Get);

    let add = client.save_album("a1");
    assert_eq!(add.uri, "https://api.spotify.com/v1/me/albums?ids=a1");
    assert_eq!(add.method, HttpMethod::Put);

    let remove = client.remove_saved_album("a1");
    assert_eq!(remove.uri, "https://api.spotify.com/v1/me/albums?ids=a1");
    assert_eq!(remove.method, HttpMethod::Delete);
}

#[test]
fn playlist_request_narrows_fields() {
    let client = SpotifyClient::new();
    let req = client.get_playlist("p7");
    assert_eq!(
        req.uri,
        "https://api.spotify.com/v1/playlists/p7?fields=id%2Cname%2Cimages%2Cowner%2Ctracks%28total%2Citems%28is_local%2Ctrack%28name%2Cid%2Cduration_ms%2Cartists%28name%2Cid%29%2Calbum%28name%2Cid%2Cimages%2Cartists%29%29%29%29"
    );
}

#[test]
fn paging_windows_share_one_shape() {
    let client = SpotifyClient::new();
    assert_eq!(
        client.get_playlist_tracks("p7", 20, 10).uri,
        "https://api.spotify.com/v1/playlists/p7/tracks?offset=20&limit=10"
    );
    assert_eq!(
        client.get_saved_albums(0, 25).uri,
        "https://api.spotify.com/v1/me/albums?offset=0&limit=25"
    );
    assert_eq!(
        client.get_saved_playlists(5, 5).uri,
        "https://api.spotify.com/v1/me/playlists?offset=5&limit=5"
    );
    assert_eq!(
        client.get_user_playlists("u1", 1, 2).uri,
        "https://api.spotify.com/v1/users/u1/playlists?offset=1&limit=2"
    );
}

#[test]
fn search_builds_the_search_endpoint() {
    let client = SpotifyClient::new();
    let req = client.search("abba".to_string(), 0, 20);
    assert_eq!(
        req.uri,
        "https://api.spotify.com/v1/search?type=album,artist&q=abba&offset=0&limit=20&market=from_token"
    );
}

#[test]
fn user_lookup_targets_the_profile() {
    let client = SpotifyClient::new();
    let req = client.get_user("someone");
    assert_eq!(req.uri, "https://api.spotify.com/v1/users/someone");
}
