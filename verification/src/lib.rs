//! Client-side implementation of a register-management protocol ("RMU")
//! spoken to network-switch chips over raw Ethernet frames.
//!
//! The crate covers the wire codec (frame headers, register-operation
//! lists, message envelopes) and the protocol-level state machines built
//! on top of it (table walks and device discovery).  All buffer handling
//! is verified: encoders and decoders are proved against byte-level
//! specifications, and the round-trip laws are stated as proof functions.

pub mod atu;
pub mod bits;
pub mod envelope;
pub mod error;
pub mod header;
pub mod message_code;
pub mod messages;
pub mod regop;
pub mod scan;
pub mod transact;
pub mod vtu;
pub mod wire;

use vstd::prelude::*;

verus! {

/// The EtherType that identifies protocol frames on the wire.
pub const ETHER_TYPE_RMU: u16 = 0x9101;

} // verus!
