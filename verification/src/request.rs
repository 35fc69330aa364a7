//! The outbound request builder: verb, target URI, conditional header,
//! and the credential-injection step.

use vstd::prelude::*;
use vstd::string::StringExecFns;

use crate::client::SpotifyClient;
use crate::error::SpotifyApiError;

verus! {

/// The HTTP verbs the API is called with.
#[derive(Clone, Copy, PartialEq, Eq, Structural, Debug)]
pub enum HttpMethod {
    Get,
    Put,
    Delete,
}

/// Every request targets the one upstream host, over HTTPS.
pub open spec fn spec_base_uri() -> Seq<char> {
    "https://api.spotify.com"@
}

/// An outbound request under construction: verb, full target URI and
/// the two optional headers the client sets. Built incrementally,
/// consumed by the transport exactly once.
pub struct SpotifyRequest {
    pub method: HttpMethod,
    pub uri: String,
    /// The `Authorization` header, once the credential is injected.
    pub auth_header: Option<String>,
    /// The `If-None-Match` header, when a prior ETag is replayed.
    pub if_none_match: Option<String>,
}

impl SpotifyRequest {
    /// A fresh builder: GET, no target, no headers yet.
    pub fn new() -> (r: Self)
        ensures
            r.method == HttpMethod::Get,
            r.uri@ == Seq::<char>::empty(),
            r.auth_header is None,
            r.if_none_match is None,
    {
        SpotifyRequest {
            method: HttpMethod::Get,
            uri: String::new(),
            auth_header: None,
            if_none_match: None,
        }
    }

    /// Sets the HTTP verb.
    pub fn method(self, method: HttpMethod) -> (r: Self)
        ensures
            r == (SpotifyRequest { method, ..self }),
    {
        SpotifyRequest { method, ..self }
    }

    /// Builds the target URI against the fixed host over HTTPS; a query
    /// string, already percent-encoded by the caller, is appended
    /// verbatim after `?`.
    pub fn uri(self, path: String, query: Option<&str>) -> (r: Self)
        ensures
            r.uri@ == spec_base_uri() + path@ + (match query {
                Some(q) => "?"@ + q@,
                None => Seq::<char>::empty(),
            }),
            r.method == self.method,
            r.auth_header == self.auth_header,
            r.if_none_match == self.if_none_match,
    {
        let mut uri = String::new();
        uri.append("https://api.spotify.com");
        uri.append(path.as_str());
        match query {
            Some(q) => {
                uri.append("?");
                uri.append(q);
                proof {
                    assert(uri@ =~= spec_base_uri() + path@ + ("?"@ + q@));
                }
            },
            None => {
                proof {
                    assert(uri@ =~= spec_base_uri() + path@ + Seq::<char>::empty());
                }
            },
        }
        SpotifyRequest { uri, ..self }
    }

    /// Reads the token store and injects `Authorization: Bearer <token>`.
    /// With no credential installed it fails fast with `NoToken`, before
    /// any network work is done.
    pub fn authenticated(self, client: &SpotifyClient) -> (r: Result<Self, SpotifyApiError>)
        ensures
            client.spec_has_token() ==> (r matches Ok(req) && req.auth_header matches Some(h) && h@
                == "Bearer "@ + client.token.unwrap()@ && req.method == self.method && req.uri
                == self.uri && req.if_none_match == self.if_none_match),
            !client.spec_has_token() ==> r == Result::<Self, SpotifyApiError>::Err(
                SpotifyApiError::NoToken,
            ),
    {
        match &client.token {
            None => Err(SpotifyApiError::NoToken),
            Some(tok) => {
                let mut h = String::new();
                h.append("Bearer ");
                h.append(tok.as_str());
                proof {
                    assert(h@ =~= "Bearer "@ + tok@);
                }
                Ok(SpotifyRequest { auth_header: Some(h), ..self })
            },
        }
    }

    /// Adds `If-None-Match` when a previous ETag is supplied, so the
    /// server may answer 304; with none the request is unchanged.
    pub fn etag(self, etag: Option<String>) -> (r: Self)
        ensures
            (match etag {
                Some(e) => r == (SpotifyRequest { if_none_match: Some(e), ..self }),
                None => r == self,
            }),
    {
        match etag {
            Some(e) => SpotifyRequest { if_none_match: Some(e), ..self },
            None => self,
        }
    }
}

} // verus!
