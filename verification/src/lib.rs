//! Verified core of a reverse HTTP proxy.
//!
//! Given a decoded inbound request, the library builds the equivalent
//! upstream request (fixed origin, path and query passed through verbatim,
//! headers filtered by a deny-list policy, body size bounded), and turns the
//! upstream's answer — or a dispatch failure — into the outbound response
//! (status normalized, headers filtered, body copied byte for byte).
//! Listening, wire framing and the network call itself live outside the
//! library; they hand it plain values and take plain values back.

pub mod bytes;
pub mod config;
pub mod laws;
pub mod model;
pub mod orchestrate;
pub mod policy;
pub mod translate;
