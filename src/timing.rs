//! Where a timing figure comes from.

use vstd::prelude::*;

verus! {

/// Whether a record's times were measured on real socket I/O or are the
/// latency of a simulated stand-in for protocol work.
#[derive(Debug, Clone, Copy, PartialEq, Eq, Structural)]
pub enum TimingSource {
    /// Measured on live sockets.
    Measured,
    /// The delay of the simulation harness itself, not of a remote peer.
    Simulated,
}

} // verus!
