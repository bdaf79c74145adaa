//! Session synchronisation for a turn-based tactics match: the wire messages,
//! the authoritative server session, its client-side mirror, and the hex-grid
//! coordinates both sides exchange.

pub mod assets;
pub mod axial_coordinates;
pub mod client;
pub mod common;
pub mod cube_coordinates;
pub mod map;
pub mod messages;
pub mod resources;
pub mod server;

use vstd::prelude::*;

verus! {

/// Protocol identifier both ends present when the connection is made.
pub const PROTOCOL_ID: u64 = 7;

} // verus!
