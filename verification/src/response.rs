//! The typed envelope a successful call returns, and deferred parsing
//! of its body text.

use vstd::prelude::*;

verus! {

/// How a successful exchange ended: with a body, or with the server
/// confirming that the cached copy is still fresh.
///
/// A `NotModified` envelope never carries body text, and a `Content`
/// envelope always does (possibly empty); the shape of the enum makes
/// that invariant structural.
pub enum SpotifyResponseKind {
    /// The raw body text of a 2xx response; parsing is deferred.
    Content(String),
    /// A 304 reply: no new body, the caller reuses its cached content.
    NotModified,
}

/// The outcome of one call: the tagged content plus the cache metadata
/// of the reply, owned by the caller.
pub struct SpotifyResponse {
    pub kind: SpotifyResponseKind,
    /// Seconds the content may be treated as fresh before re-validation.
    pub max_age: u64,
    /// The content-version identifier, when the server sent one.
    pub etag: Option<String>,
}

#[verifier::external_type_specification]
#[verifier::external_body]
pub struct ExJsonValue(serde_json::Value);

/// Whether `serde_json` accepts the text as a JSON document; a
/// function of the text alone.
pub uninterp spec fn json_parses(s: Seq<char>) -> bool;

/// Relies on `serde_json::from_str::<serde_json::Value>`: whether the
/// parse succeeds depends only on the input text.
#[verifier::external_body]
fn parse_json_value(s: &str) -> (r: Option<serde_json::Value>)
    ensures
        r is Some <==> json_parses(s@),
{
    serde_json::from_str::<serde_json::Value>(s).ok()
}

impl SpotifyResponse {
    /// Parses the stored body text on demand. Absence is not an error:
    /// a `NotModified` envelope and malformed JSON both yield `None`,
    /// so an HTTP-level failure is never masked by a payload-shape one.
    pub fn deserialize(&self) -> (r: Option<serde_json::Value>)
        ensures
            self.kind is NotModified ==> r is None,
            (self.kind matches SpotifyResponseKind::Content(content) ==> (r is Some <==> json_parses(
                content@,
            ))),
    {
        match &self.kind {
            SpotifyResponseKind::Content(content) => parse_json_value(content.as_str()),
            SpotifyResponseKind::NotModified => None,
        }
    }
}

} // verus!
