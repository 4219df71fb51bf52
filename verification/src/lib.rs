//! Client-side protocol layer for a JSON-RPC-over-HTTP download-management
//! daemon.
//!
//! The crate covers the session-negotiated request/response protocol: typed
//! requests become wire envelopes, the daemon's session-token handshake is
//! satisfied with at most one retry, and daemon replies are mapped back into
//! typed domain values or into a layered error taxonomy.  The blocking HTTP
//! transport itself is supplied by the caller; this crate only decides what to
//! send and how to interpret what came back.

pub mod base64;
pub mod decode;
pub mod error;
pub mod json;
pub mod laws;
pub mod parse;
pub mod priority;
pub mod requests;
pub mod responses;
pub mod ser;
pub mod session;
pub mod strings;
pub mod torrent;
pub mod types;
