//! A verified core for a minimal Gemini-protocol calculator server.
//!
//! The library holds the protocol state machine: decoding and parsing a
//! request line, routing on its query component, evaluating the query, and
//! serializing the status-coded response. Transport concerns (sockets, TLS
//! handshakes, reads and writes) stay outside the library.

pub mod cli;
pub mod codec;
pub mod eval;
pub mod percent;
pub mod request;
pub mod response;
pub mod router;
pub mod tls;
