//! The error kinds a call can surface.

use vstd::prelude::*;
use vstd::string::StringExecFns;

use crate::strutil::dec_str;
use crate::strutil::push_decimal;

verus! {

/// Everything that can go wrong during one call.
///
/// Failures of outside collaborators (transport, I/O, cache store,
/// JSON parsing, body decoding) are carried as their message text.
#[derive(Debug)]
pub enum SpotifyApiError {
    /// The server rejected the credential; the stored token has been
    /// cleared, and re-authenticating then retrying is likely to work.
    InvalidToken,
    /// No credential is installed; authenticate before calling.
    NoToken,
    /// A response carried no content where some was expected.
    NoContent,
    /// Any other non-success HTTP status, with its exact numeric code.
    BadStatus(u16),
    /// A transport failure (connection, TLS, DNS) from the HTTP client.
    ClientError(String),
    /// An I/O failure while reading a response body.
    IoError(String),
    /// A failure of the cache collaborator, passed through unchanged.
    CacheError(String),
    /// A JSON parse failure from an explicit parse step.
    ParseError(String),
    /// A response body that was not valid UTF-8.
    ConversionError(String),
}

impl SpotifyApiError {
    /// The human-readable description of the error.
    pub open spec fn spec_message(&self) -> Seq<char> {
        match self {
            SpotifyApiError::InvalidToken => "Invalid token"@,
            SpotifyApiError::NoToken => "No token"@,
            SpotifyApiError::NoContent => "No content from request"@,
            SpotifyApiError::BadStatus(code) => "Request failed with status "@ + dec_str(
                *code as nat,
            ),
            SpotifyApiError::ClientError(m) => m@,
            SpotifyApiError::IoError(m) => m@,
            SpotifyApiError::CacheError(m) => m@,
            SpotifyApiError::ParseError(m) => m@,
            SpotifyApiError::ConversionError(m) => m@,
        }
    }

    /// Renders the error as text.
    pub fn message(&self) -> (r: String)
        ensures
            r@ == self.spec_message(),
    {
        match self {
            SpotifyApiError::InvalidToken => String::from_str("Invalid token"),
            SpotifyApiError::NoToken => String::from_str("No token"),
            SpotifyApiError::NoContent => String::from_str("No content from request"),
            SpotifyApiError::BadStatus(code) => {
                let mut out = String::from_str("Request failed with status ");
                push_decimal(&mut out, *code as usize);
                out
            },
            SpotifyApiError::ClientError(m) => m.clone(),
            SpotifyApiError::IoError(m) => m.clone(),
            SpotifyApiError::CacheError(m) => m.clone(),
            SpotifyApiError::ParseError(m) => m.clone(),
            SpotifyApiError::ConversionError(m) => m.clone(),
        }
    }
}

} // verus!
