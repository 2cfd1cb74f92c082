//! A byte stream that survives drops of its transport: when the transport fails,
//! the stream reconnects on a schedule of waits, and each read, write, flush or
//! shutdown behaves as the connection state (connected, disconnected, or
//! exhausted) asks, without ever blocking its caller.
use vstd::prelude::*;

pub mod config;
pub mod connect;
pub mod error;
pub mod label;
pub mod laws;
pub mod stream;

verus! {

} // verus!
