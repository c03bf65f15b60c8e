//! A verified model of an RPC relay with publish/subscribe fan-out.
//!
//! The library resolves a logical endpoint identifier to an upstream target,
//! prepares one-shot HTTP relays and full-duplex socket sessions against that
//! target, and republishes every upstream-originated message to a per-endpoint
//! broadcast hub that any number of independent subscribers can tap.
//!
//! All decision logic is verified; the network legs themselves (connecting,
//! reading and writing sockets) are performed by the surrounding program,
//! which feeds their outcomes back into the verified state machines.

pub mod ascii;
pub mod assoc;
pub mod directory;
pub mod duplex;
pub mod endpoint;
pub mod errors;
pub mod events;
pub mod hub;
pub mod laws;
pub mod relay;
pub mod store;
