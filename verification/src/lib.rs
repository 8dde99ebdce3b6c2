//! A minimal two-peer, text-oriented duplex channel over TCP, plus a
//! single-connection, line-delimited request server.
//!
//! The crate holds the decision and parsing logic of both modes: which
//! action each component takes on each event, how inbound bytes are split
//! into request lines, and how text is encoded and decoded.  The I/O loops
//! that feed events in and carry actions out live outside the library.

pub mod lines;
pub mod liveness;
pub mod policy;
pub mod server;
pub mod session;
pub mod text;
