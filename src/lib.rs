//! A line relay: every line one client sends is published on a shared hub and
//! written to every other connected client, prefixed with the sender's identity.
//!
//! The library holds the wire format and the decisions of the two loops that
//! drive the relay: the accept loop (`listener`) and each client's session
//! (`session`). Both are state machines from an observed event to the next state
//! and the action to perform; the runtime that waits on sockets, the hub and the
//! shutdown watch performs those actions and reports back the events.

pub mod listener;
pub mod session;
pub mod wire;
