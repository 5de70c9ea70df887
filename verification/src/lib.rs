//! Typed request dispatch with pluggable content converters and a WebSocket
//! upgrade path.
//!
//! The crate holds the decisions of such a layer: which handler answers a
//! request, how converter stages wrap a handler, whether an opening handshake
//! is accepted and with which reply, and how typed messages travel over a
//! connection. Sockets, timers and tasks belong to the caller.

pub mod api;
pub mod channel;
pub mod converter;
pub mod handshake;
pub mod http;
pub mod json;
pub mod middleware;
pub mod responder_factory;
pub mod router;
pub mod server;
pub mod text;
pub mod upgrade;
