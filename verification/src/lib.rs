//! Redirect-following execution core of a blocking HTTP client.
//!
//! The library owns the security-sensitive decisions of request execution:
//! which redirects to follow, how methods and bodies are rewritten per
//! status code, when sensitive headers are stripped across origin
//! boundaries, and when a Referer value may be forwarded. The transport
//! itself (connections, TLS handshakes, byte-level HTTP) is a collaborator
//! that a caller drives outside of this crate.

pub mod chars;
pub mod client;
pub mod engine;
pub mod error;
pub mod headers;
pub mod redirect;
pub mod urls;
