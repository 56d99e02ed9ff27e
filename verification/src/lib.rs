//! Client-side core for the Azkaban workflow scheduler's HTTP/JSON API.
//!
//! The crate models the two things such a client actually computes:
//! the request URLs (base endpoint plus a fixed sequence of query
//! parameters per operation) and the structural decoding of the JSON
//! response bodies into typed records.  The HTTP transport itself is
//! left to the embedding application.

pub mod client;
pub mod error;
pub mod json;
pub mod response;
