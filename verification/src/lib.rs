//! A typed client core for a remote music-catalog web API.
//!
//! The crate covers the request-building and response-interpretation
//! pipeline: bearer-token handling, query-string construction, the
//! classification of HTTP responses into typed envelopes with cache
//! metadata (ETag, max-age), and deferred parsing of body text.
//!
//! Network transport itself is left to the embedding application; the
//! library takes plain values (status code, header texts, body text)
//! and states exactly how they are interpreted.

pub mod cache_control;
pub mod client;
pub mod encoding;
pub mod endpoints;
pub mod error;
pub mod request;
pub mod response;
pub mod search;
pub mod strutil;
