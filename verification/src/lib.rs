//! Verified core of a browser chat-room client.
//!
//! The library models the connection lifecycle (Connecting, Open, Closed,
//! Errored), the join handshake (the username is the first frame on the
//! wire), state-gated sending, the rendering of inbound text frames into a
//! container of child nodes, and the registry that keeps event handlers
//! alive for the lifetime of a transport.  The browser glue that drives
//! these decisions lives outside the library.

pub mod connection;
pub mod laws;
pub mod registry;
pub mod render;
