//! A verified core for an HTTP client to a document-search service.
//!
//! The crate covers the request-dispatch and response-classification
//! pipeline: round-robin rotation over a pool of node addresses, exactly-once
//! resolution of per-call parameters, an immutable wire-request descriptor
//! behind a single-use builder, and a classifier that turns a status code and
//! a complete body into a typed success value, a recognized domain error, or
//! a parse failure. Transports — blocking or scheduled on an outside
//! executor — live outside the library and exchange plain status codes and
//! byte bodies with it, through the shapes in [`transport`].

pub mod error;
pub mod json;
pub mod meta;
pub mod params;
pub mod pool;
pub mod prelude;
pub mod requests;
pub mod responses;
pub mod string;
pub mod transport;
