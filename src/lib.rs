//! Session protocol engine for a broker gateway's length-prefixed,
//! null-delimited wire protocol.
//!
//! The crate holds the logic of the engine: framing, the field codec, the
//! message catalog, the encoder and decoder, the dispatcher that correlates
//! replies with requests, and the session state machine. Sockets, threads and
//! queues live with the caller, which feeds bytes and events in and carries
//! out the actions that come back.

pub mod catalog;
pub mod client;
pub mod codec;
pub mod contract;
pub mod dispatch;
pub mod field;
pub mod frame;
pub mod message;
