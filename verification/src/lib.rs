//! A device-bootstrap sequencer and single-asset responder.
//!
//! The crate models the two pieces of logic a small networked device needs at
//! startup: driving a wireless station interface through its connection
//! stages, and answering HTTP requests for one pre-provisioned file. All
//! decisions are made here, under contracts; the hardware and transport calls
//! that carry them out live outside the library.

use vstd::prelude::*;

pub mod connect;
pub mod responder;

verus! {

/// Largest number of bytes a network identifier may occupy.
pub const MAX_SSID_BYTES: usize = 32;

/// Largest number of bytes a shared secret may occupy.
pub const MAX_PASS_BYTES: usize = 64;

/// The process-wide owner of the startup resources: the live connection,
/// and whether the read-only volume mounted. Both are created once during
/// startup and held for the rest of the process. A failed mount is not
/// fatal: the responder is registered regardless, and every request then
/// takes the not-found path.
pub struct AppContext {
    /// The connection a completed bootstrap run produced. It must stay
    /// alive as long as the device needs the network.
    pub connection: connect::ConnectionHandle,
    /// Whether the storage partition mounted under the fixed root.
    pub mounted: bool,
}

impl AppContext {
    /// Gather the startup resources once the bootstrap sequence is done.
    pub fn new(connection: connect::ConnectionHandle, mounted: bool) -> (c: AppContext)
        ensures
            c.connection == connection,
            c.mounted == mounted,
    {
        AppContext { connection, mounted }
    }
}

} // verus!
