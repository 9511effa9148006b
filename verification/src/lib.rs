//! Verified decision logic of a tunnel that carries plaintext TCP connections
//! over streams of a multiplexed, encrypted transport.
//!
//! Every operation that touches a socket or the transport is performed by the
//! caller. The library decides what to do next: each module holds a state
//! machine that takes the outcome of the last operation and answers with the
//! next one, together with the laws that hold of every run.
//!
//! - `relay` moves the bytes of one direction and decides when to flush;
//!   `history` states what every run of a relay has read, written and
//!   flushed; `pair` binds the two directions of one connection.
//! - `client` and `server` hold the listener and the session of each role.
//! - `options`, `transport` and `certificate` hold what the roles are set up
//!   with; `error` holds the error value that all of them report.

pub mod certificate;
pub mod client;
pub mod error;
pub mod history;
pub mod options;
pub mod pair;
pub mod relay;
pub mod server;
pub mod transport;
