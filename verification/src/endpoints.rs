//! The endpoint catalog: one request builder per remote resource.
//!
//! Each helper assembles the path and query string for its endpoint and
//! hands back an unauthenticated request; the credential is injected at
//! send time.

use vstd::prelude::*;
use vstd::string::StringExecFns;
use vstd::utf8::encode_utf8;

use crate::client::SpotifyClient;
use crate::encoding::QueryParams;
use crate::encoding::encoded_pair;
use crate::encoding::form_encoded_bytes;
use crate::encoding::strip_question_marks;
use crate::request::HttpMethod;
use crate::request::SpotifyRequest;
use crate::request::spec_base_uri;
use crate::search::SearchQuery;
use crate::search::SearchType;
use crate::search::joined_types;
use crate::search::spec_search_query_string;
use crate::strutil::dec_str;
use crate::strutil::usize_to_string;

verus! {

/// The query pairs of a paging window: `offset=<n>&limit=<n>`.
pub open spec fn paging_pairs(offset: nat, limit: nat) -> Seq<char> {
    encoded_pair("offset"@, dec_str(offset)) + "&"@ + encoded_pair("limit"@, dec_str(limit))
}

impl SpotifyClient {
    /// One artist by id.
    pub fn get_artist(&self, id: &str) -> (r: SpotifyRequest)
        ensures
            r.method == HttpMethod::Get,
            r.uri@ == spec_base_uri() + "/v1/artists/"@ + id@,
            r.auth_header is None,
            r.if_none_match is None,
    {
        let mut path = String::new();
        path.append("/v1/artists/");
        path.append(id);
        let r = self.request().method(HttpMethod::Get).uri(path, None);
        proof {
            assert(r.uri@ =~= spec_base_uri() + "/v1/artists/"@ + id@);
        }
        r
    }

    /// A paging window of an artist's albums and singles.
    pub fn get_artist_albums(&self, id: &str, offset: usize, limit: usize) -> (r: SpotifyRequest)
        ensures
            r.method == HttpMethod::Get,
            r.uri@ == spec_base_uri() + "/v1/artists/"@ + id@ + "/albums"@ + "?"@ + encoded_pair(
                "include_groups"@,
                "album,single"@,
            ) + "&"@ + encoded_pair("country"@, "from_token"@) + "&"@ + paging_pairs(
                offset as nat,
                limit as nat,
            ),
            r.auth_header is None,
            r.if_none_match is None,
    {
        let mut q = QueryParams::new();
        q.append_pair("include_groups", "album,single");
        q.append_pair("country", "from_token");
        let offset_text = usize_to_string(offset);
        q.append_pair("offset", offset_text.as_str());
        let limit_text = usize_to_string(limit);
        q.append_pair("limit", limit_text.as_str());
        let query = q.finish();
        let mut path = String::new();
        path.append("/v1/artists/");
        path.append(id);
        path.append("/albums");
        let r = self.request().method(HttpMethod::Get).uri(path, Some(query.as_str()));
        proof {
            assert(r.uri@ =~= spec_base_uri() + "/v1/artists/"@ + id@ + "/albums"@ + "?"@
                + encoded_pair("include_groups"@, "album,single"@) + "&"@ + encoded_pair(
                "country"@,
                "from_token"@,
            ) + "&"@ + paging_pairs(offset as nat, limit as nat));
        }
        r
    }

    /// An artist's top tracks in the token's market.
    pub fn get_artist_top_tracks(&self, id: &str) -> (r: SpotifyRequest)
        ensures
            r.method == HttpMethod::Get,
            r.uri@ == spec_base_uri() + "/v1/artists/"@ + id@ + "/top-tracks"@ + "?"@ + encoded_pair(
                "market"@,
                "from_token"@,
            ),
            r.auth_header is None,
            r.if_none_match is None,
    {
        let mut q = QueryParams::new();
        q.append_pair("market", "from_token");
        let query = q.finish();
        let mut path = String::new();
        path.append("/v1/artists/");
        path.append(id);
        path.append("/top-tracks");
        let r = self.request().method(HttpMethod::Get).uri(path, Some(query.as_str()));
        proof {
            assert(r.uri@ =~= spec_base_uri() + "/v1/artists/"@ + id@ + "/top-tracks"@ + "?"@
                + encoded_pair("market"@, "from_token"@));
        }
        r
    }

    /// Whether the album is in the user's library.
    pub fn is_album_saved(&self, id: &str) -> (r: SpotifyRequest)
        ensures
            r.method == HttpMethod::Get,
            r.uri@ == spec_base_uri() + "/v1/me/albums/contains"@ + "?"@ + encoded_pair("ids"@, id@),
            r.auth_header is None,
            r.if_none_match is None,
    {
        let mut q = QueryParams::new();
        q.append_pair("ids", id);
        let query = q.finish();
        let mut path = String::new();
        path.append("/v1/me/albums/contains");
        let r = self.request().method(HttpMethod::Get).uri(path, Some(query.as_str()));
        proof {
            assert(r.uri@ =~= spec_base_uri() + "/v1/me/albums/contains"@ + "?"@ + encoded_pair(
                "ids"@,
                id@,
            ));
        }
        r
    }

    /// Adds the album to the user's library.
    pub fn save_album(&self, id: &str) -> (r: SpotifyRequest)
        ensures
            r.method == HttpMethod::Put,
            r.uri@ == spec_base_uri() + "/v1/me/albums"@ + "?"@ + encoded_pair("ids"@, id@),
            r.auth_header is None,
            r.if_none_match is None,
    {
        let mut q = QueryParams::new();
        q.append_pair("ids", id);
        let query = q.finish();
        let mut path = String::new();
        path.append("/v1/me/albums");
        let r = self.request().method(HttpMethod::Put).uri(path, Some(query.as_str()));
        proof {
            assert(r.uri@ =~= spec_base_uri() + "/v1/me/albums"@ + "?"@ + encoded_pair("ids"@, id@));
        }
        r
    }

    /// Removes the album from the user's library.
    pub fn remove_saved_album(&self, id: &str) -> (r: SpotifyRequest)
        ensures
            r.method == HttpMethod::Delete,
            r.uri@ == spec_base_uri() + "/v1/me/albums"@ + "?"@ + encoded_pair("ids"@, id@),
            r.auth_header is None,
            r.if_none_match is None,
    {
        let mut q = QueryParams::new();
        q.append_pair("ids", id);
        let query = q.finish();
        let mut path = String::new();
        path.append("/v1/me/albums");
        let r = self.request().method(HttpMethod::Delete).uri(path, Some(query.as_str()));
        proof {
            assert(r.uri@ =~= spec_base_uri() + "/v1/me/albums"@ + "?"@ + encoded_pair("ids"@, id@));
        }
        r
    }

    /// One album by id.
    pub fn get_album(&self, id: &str) -> (r: SpotifyRequest)
        ensures
            r.method == HttpMethod::Get,
            r.uri@ == spec_base_uri() + "/v1/albums/"@ + id@,
            r.auth_header is None,
            r.if_none_match is None,
    {
        let mut path = String::new();
        path.append("/v1/albums/");
        path.append(id);
        let r = self.request().method(HttpMethod::Get).uri(path, None);
        proof {
            assert(r.uri@ =~= spec_base_uri() + "/v1/albums/"@ + id@);
        }
        r
    }

    /// One playlist by id, restricted to the fields the client reads.
    pub fn get_playlist(&self, id: &str) -> (r: SpotifyRequest)
        ensures
            r.method == HttpMethod::Get,
            r.uri@ == spec_base_uri() + "/v1/playlists/"@ + id@ + "?"@ + encoded_pair(
                "fields"@,
                "id,name,images,owner,tracks(total,items(is_local,track(name,id,duration_ms,artists(name,id),album(name,id,images,artists))))"@,
            ),
            r.auth_header is None,
            r.if_none_match is None,
    {
        let mut q = QueryParams::new();
        q.append_pair(
            "fields",
            "id,name,images,owner,tracks(total,items(is_local,track(name,id,duration_ms,artists(name,id),album(name,id,images,artists))))",
        );
        let query = q.finish();
        let mut path = String::new();
        path.append("/v1/playlists/");
        path.append(id);
        let r = self.request().method(HttpMethod::Get).uri(path, Some(query.as_str()));
        proof {
            assert(r.uri@ =~= spec_base_uri() + "/v1/playlists/"@ + id@ + "?"@ + encoded_pair(
                "fields"@,
                "id,name,images,owner,tracks(total,items(is_local,track(name,id,duration_ms,artists(name,id),album(name,id,images,artists))))"@,
            ));
        }
        r
    }

    /// A paging window of a playlist's tracks.
    pub fn get_playlist_tracks(&self, id: &str, offset: usize, limit: usize) -> (r: SpotifyRequest)
        ensures
            r.method == HttpMethod::Get,
            r.uri@ == spec_base_uri() + "/v1/playlists/"@ + id@ + "/tracks"@ + "?"@ + paging_pairs(
                offset as nat,
                limit as nat,
            ),
            r.auth_header is None,
            r.if_none_match is None,
    {
        let query = Self::paging_query(offset, limit);
        let mut path = String::new();
        path.append("/v1/playlists/");
        path.append(id);
        path.append("/tracks");
        let r = self.request().method(HttpMethod::Get).uri(path, Some(query.as_str()));
        proof {
            assert(r.uri@ =~= spec_base_uri() + "/v1/playlists/"@ + id@ + "/tracks"@ + "?"@
                + paging_pairs(offset as nat, limit as nat));
        }
        r
    }

    /// A paging window of the user's saved albums.
    pub fn get_saved_albums(&self, offset: usize, limit: usize) -> (r: SpotifyRequest)
        ensures
            r.method == HttpMethod::Get,
            r.uri@ == spec_base_uri() + "/v1/me/albums"@ + "?"@ + paging_pairs(
                offset as nat,
                limit as nat,
            ),
            r.auth_header is None,
            r.if_none_match is None,
    {
        let query = Self::paging_query(offset, limit);
        let mut path = String::new();
        path.append("/v1/me/albums");
        let r = self.request().method(HttpMethod::Get).uri(path, Some(query.as_str()));
        proof {
            assert(r.uri@ =~= spec_base_uri() + "/v1/me/albums"@ + "?"@ + paging_pairs(
                offset as nat,
                limit as nat,
            ));
        }
        r
    }

    /// A paging window of the user's saved playlists.
    pub fn get_saved_playlists(&self, offset: usize, limit: usize) -> (r: SpotifyRequest)
        ensures
            r.method == HttpMethod::Get,
            r.uri@ == spec_base_uri() + "/v1/me/playlists"@ + "?"@ + paging_pairs(
                offset as nat,
                limit as nat,
            ),
            r.auth_header is None,
            r.if_none_match is None,
    {
        let query = Self::paging_query(offset, limit);
        let mut path = String::new();
        path.append("/v1/me/playlists");
        let r = self.request().method(HttpMethod::Get).uri(path, Some(query.as_str()));
        proof {
            assert(r.uri@ =~= spec_base_uri() + "/v1/me/playlists"@ + "?"@ + paging_pairs(
                offset as nat,
                limit as nat,
            ));
        }
        r
    }

    /// A search over albums and artists.
    pub fn search(&self, query: String, offset: usize, limit: usize) -> (r: SpotifyRequest)
        ensures
            r.method == HttpMethod::Get,
            r.uri@ == spec_base_uri() + "/v1/search"@ + "?"@ + "type="@ + joined_types(
                seq![SearchType::Album, SearchType::Artist],
            ) + "&q="@ + form_encoded_bytes(strip_question_marks(encode_utf8(query@)))
                + "&offset="@ + dec_str(offset as nat) + "&limit="@ + dec_str(limit as nat)
                + "&market=from_token"@,
            r.auth_header is None,
            r.if_none_match is None,
    {
        let mut types: Vec<SearchType> = Vec::new();
        types.push(SearchType::Album);
        types.push(SearchType::Artist);
        proof {
            assert(types@ =~= seq![SearchType::Album, SearchType::Artist]);
        }
        let search_query = SearchQuery { query, types, limit, offset };
        let ghost sq = search_query;
        let query_string = search_query.into_query_string();
        let mut path = String::new();
        path.append("/v1/search");
        let r = self.request().method(HttpMethod::Get).uri(path, Some(query_string.as_str()));
        proof {
            assert(query_string@ == spec_search_query_string(sq));
            assert(r.uri@ =~= spec_base_uri() + "/v1/search"@ + "?"@ + "type="@ + joined_types(
                sq.types@,
            ) + "&q="@ + form_encoded_bytes(strip_question_marks(encode_utf8(sq.query@)))
                + "&offset="@ + dec_str(offset as nat) + "&limit="@ + dec_str(limit as nat)
                + "&market=from_token"@);
        }
        r
    }

    /// One user's profile by id.
    pub fn get_user(&self, id: &str) -> (r: SpotifyRequest)
        ensures
            r.method == HttpMethod::Get,
            r.uri@ == spec_base_uri() + "/v1/users/"@ + id@,
            r.auth_header is None,
            r.if_none_match is None,
    {
        let mut path = String::new();
        path.append("/v1/users/");
        path.append(id);
        let r = self.request().method(HttpMethod::Get).uri(path, None);
        proof {
            assert(r.uri@ =~= spec_base_uri() + "/v1/users/"@ + id@);
        }
        r
    }

    /// A paging window of a user's public playlists.
    pub fn get_user_playlists(&self, id: &str, offset: usize, limit: usize) -> (r: SpotifyRequest)
        ensures
            r.method == HttpMethod::Get,
            r.uri@ == spec_base_uri() + "/v1/users/"@ + id@ + "/playlists"@ + "?"@ + paging_pairs(
                offset as nat,
                limit as nat,
            ),
            r.auth_header is None,
            r.if_none_match is None,
    {
        let query = Self::paging_query(offset, limit);
        let mut path = String::new();
        path.append("/v1/users/");
        path.append(id);
        path.append("/playlists");
        let r = self.request().method(HttpMethod::Get).uri(path, Some(query.as_str()));
        proof {
            assert(r.uri@ =~= spec_base_uri() + "/v1/users/"@ + id@ + "/playlists"@ + "?"@
                + paging_pairs(offset as nat, limit as nat));
        }
        r
    }

    /// The `offset`/`limit` pairs shared by every windowed endpoint.
    fn paging_query(offset: usize, limit: usize) -> (r: String)
        ensures
            r@ == paging_pairs(offset as nat, limit as nat),
    {
        let mut q = QueryParams::new();
        let offset_text = usize_to_string(offset);
        q.append_pair("offset", offset_text.as_str());
        let limit_text = usize_to_string(limit);
        q.append_pair("limit", limit_text.as_str());
        let r = q.finish();
        proof {
            assert(r@ =~= paging_pairs(offset as nat, limit as nat));
        }
        r
    }
}

} // verus!
