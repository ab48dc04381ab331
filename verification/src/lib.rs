//! Session-multiplexing core of a client for a tree-structured coordination
//! service reached over a single long-lived, ordered byte stream.
//!
//! Concurrently submitted requests are serialized onto one connection in
//! strict submission order with server-assigned correlation ids, a request's
//! caller-owned watch sink is recorded in a pending-watcher table while the
//! request itself is rewritten for the wire, connection loss is survived by a
//! Reconnecting state that keeps the id counter intact, and the session shuts
//! down cleanly with a fixed close-session packet once no sender is left.
//!
//! The byte-level framing of individual requests, the transport I/O, and the
//! reconnection policy live outside this core, behind the connection
//! collaborator modelled in [`connection`].

pub mod codec;
pub mod connection;
pub mod packetizer;
pub mod queue;
pub mod request;
pub mod watch;
