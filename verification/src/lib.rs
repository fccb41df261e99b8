//! A typed client core for the Nexus Mods REST API: field codecs for the
//! deliberately ambiguous wire values, per-endpoint status tables that map an
//! HTTP status code and a raw body to a typed outcome, aggregation views over
//! the decoded lists, and a rate-limit snapshot parser.
//!
//! Transport (sending the requests) is left to the caller; this crate builds
//! the request descriptions and decodes the responses.

pub mod api;
pub mod codec;
pub mod decode;
pub mod err;
pub mod json;
pub mod request;
