//! Safe, verified core of a polling-based messaging client.
//!
//! The library owns the pure logic of the client: translation of native
//! result codes into typed errors, decoding of event envelopes, routing of
//! events to callback registries, a bounded broadcast bus with per-subscriber
//! cursors, the client lifecycle state machine, and a keyed registry for
//! running several clients side by side. Everything that touches the native
//! handle, the file system or an async runtime lives outside this crate and
//! feeds plain values into the functions here.

pub mod bridge;
pub mod bus;
pub mod error;
pub mod handlers;
pub mod decode;
pub mod events;
pub mod jid;
pub mod json;
pub mod lifecycle;
pub mod manager;
pub mod media;
pub mod text;
pub mod tracker;
