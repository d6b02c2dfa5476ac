//! Capability broker for an inter-process object-exchange mechanism.
//!
//! Unrelated processes that share access to a common file use that file as a
//! rendezvous token to publish and retrieve an opaque object reference (a
//! "port"). The broker derives a stable identity from the file's metadata,
//! keeps a concurrent registry from identity to port, and serves a
//! two-operation protocol (register / exchange) one transaction at a time.

use vstd::prelude::*;

pub mod broker;
pub mod client;
pub mod identity;
pub mod payload;
pub mod port;
pub mod registry;

verus! {

/// Opcode of a transaction that asks the broker to store a port under the
/// identity of the file carried by the request.
pub const REGISTER_CODE: u32 = 1;

/// Opcode of a transaction that asks the broker for the port stored under the
/// identity of the file carried by the request.
pub const EXCHANGE_CODE: u32 = 2;

} // verus!
