//! Client-side engine for a line-oriented, ASCII, tag-correlated text protocol
//! that drives a remote telephony/media server.
//!
//! The crate covers the protocol engine proper: the typed command model and its
//! canonical wire encoding, the typed event model with its line parser and
//! error taxonomy, and the connection bookkeeping that allocates correlation
//! tags. Socket I/O and threading live outside the library; the library hands
//! its callers plain values and fully specified transitions.

pub mod addr;
pub mod client;
pub mod commands;
pub mod constants;
pub mod events;
pub mod parser;
pub mod primitives;
pub mod roundtrip;
pub mod wire;
