//! The client state (the bearer token) and the response classifier.

use vstd::prelude::*;
use vstd::utf8::encode_utf8;

use crate::cache_control::parse_cache_control;
use crate::cache_control::spec_parse_cache_control;
use crate::error::SpotifyApiError;
use crate::request::HttpMethod;
use crate::request::SpotifyRequest;
use crate::response::SpotifyResponse;
use crate::response::SpotifyResponseKind;

verus! {

/// Seconds a reply stays fresh when it names no usable max-age.
pub const DEFAULT_MAX_AGE: u64 = 10;

/// A 2xx status.
pub open spec fn is_success_status(status: u16) -> bool {
    200 <= status && status <= 299
}

/// The freshness lifetime a reply's headers grant: its parsed max-age,
/// or the default when the header is absent or malformed.
pub open spec fn spec_max_age(cache_control: Option<String>) -> u64 {
    match cache_control {
        None => DEFAULT_MAX_AGE,
        Some(s) => match spec_parse_cache_control(encode_utf8(s@)) {
            Some(n) => n,
            None => DEFAULT_MAX_AGE,
        },
    }
}

/// The bearer-token holder shared by every request.
///
/// The token is absent at construction, set by an external
/// authentication flow, and cleared when the server reports that the
/// credential is no longer valid.
pub struct SpotifyClient {
    pub token: Option<String>,
}

impl SpotifyClient {
    /// True when a bearer token is currently installed.
    pub open spec fn spec_has_token(&self) -> bool {
        self.token is Some
    }

    /// A fresh client starts without a token.
    pub fn new() -> (r: Self)
        ensures
            !r.spec_has_token(),
    {
        SpotifyClient { token: None }
    }

    pub fn has_token(&self) -> (r: bool)
        ensures
            r == self.spec_has_token(),
    {
        self.token.is_some()
    }

    /// Replaces the current token unconditionally.
    pub fn update_token(&mut self, new_token: String)
        ensures
            final(self).token == Some(new_token),
    {
        self.token = Some(new_token);
    }

    /// Removes the current token.
    pub fn clear_token(&mut self)
        ensures
            !final(self).spec_has_token(),
    {
        self.token = None;
    }

    /// Starts building a request against this client.
    pub fn request(&self) -> (r: SpotifyRequest)
        ensures
            r.method == HttpMethod::Get,
            r.uri@ == Seq::<char>::empty(),
            r.auth_header is None,
            r.if_none_match is None,
    {
        SpotifyRequest::new()
    }

    /// Classifies one reply whose body may have been read: the envelope
    /// for 2xx and 304, `InvalidToken` for 401 — clearing the stored
    /// token so later calls fail fast — and `BadStatus` with the exact
    /// code otherwise. Cache metadata is taken from the headers on both
    /// success paths, with max-age defaulting when absent or malformed.
    pub fn handle_response(
        &mut self,
        status: u16,
        etag: Option<String>,
        cache_control: Option<String>,
        body: Option<String>,
    ) -> (r: Result<SpotifyResponse, SpotifyApiError>)
        requires
            is_success_status(status) ==> body is Some,
        ensures
            is_success_status(status) ==> (r matches Ok(resp) && resp.kind
                == SpotifyResponseKind::Content(body.unwrap()) && resp.max_age == spec_max_age(
                cache_control,
            ) && resp.etag == etag && *final(self) == *old(self)),
            status == 401 ==> (!final(self).spec_has_token() && r == Result::<
                SpotifyResponse,
                SpotifyApiError,
            >::Err(SpotifyApiError::InvalidToken)),
            status == 304 ==> (r matches Ok(resp) && resp.kind is NotModified && resp.max_age
                == spec_max_age(cache_control) && resp.etag == etag && *final(self) == *old(self)),
            !is_success_status(status) && status != 401 && status != 304 ==> (r == Result::<
                SpotifyResponse,
                SpotifyApiError,
            >::Err(SpotifyApiError::BadStatus(status)) && *final(self) == *old(self)),
    {
        if 200 <= status && status <= 299 {
            let max_age = Self::max_age_from(&cache_control);
            Ok(
                SpotifyResponse {
                    kind: SpotifyResponseKind::Content(body.unwrap()),
                    max_age,
                    etag,
                },
            )
        } else if status == 401 {
            self.clear_token();
            Err(SpotifyApiError::InvalidToken)
        } else if status == 304 {
            let max_age = Self::max_age_from(&cache_control);
            Ok(SpotifyResponse { kind: SpotifyResponseKind::NotModified, max_age, etag })
        } else {
            Err(SpotifyApiError::BadStatus(status))
        }
    }

    /// Classifies one reply whose body is never read: only success or
    /// failure is reported, with the same token-clearing side effect on
    /// 401.
    pub fn handle_response_no_body(&mut self, status: u16) -> (r: Result<(), SpotifyApiError>)
        ensures
            status == 401 ==> (!final(self).spec_has_token() && r == Result::<
                (),
                SpotifyApiError,
            >::Err(SpotifyApiError::InvalidToken)),
            status == 304 || is_success_status(status) ==> (r == Result::<
                (),
                SpotifyApiError,
            >::Ok(()) && *final(self) == *old(self)),
            !is_success_status(status) && status != 401 && status != 304 ==> (r == Result::<
                (),
                SpotifyApiError,
            >::Err(SpotifyApiError::BadStatus(status)) && *final(self) == *old(self)),
    {
        if status == 401 {
            self.clear_token();
            Err(SpotifyApiError::InvalidToken)
        } else if status == 304 {
            Ok(())
        } else if 200 <= status && status <= 299 {
            Ok(())
        } else {
            Err(SpotifyApiError::BadStatus(status))
        }
    }

    /// Whether the reply's body is to be read before classification:
    /// only a 2xx reply carries content the envelope keeps.
    pub fn should_read_body(status: u16) -> (r: bool)
        ensures
            r == is_success_status(status),
    {
        200 <= status && status <= 299
    }

    /// The max-age granted by an optional `Cache-Control` header.
    fn max_age_from(cache_control: &Option<String>) -> (r: u64)
        ensures
            r == spec_max_age(*cache_control),
    {
        match cache_control {
            None => DEFAULT_MAX_AGE,
            Some(s) => match parse_cache_control(s.as_str()) {
                Some(n) => n,
                None => DEFAULT_MAX_AGE,
            },
        }
    }
}

} // verus!
