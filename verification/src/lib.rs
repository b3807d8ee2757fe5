//! Core of a realm management monitor: the granule state machine, the realm
//! registry, per-realm stage-2 translation tables, and the handlers of the
//! realm management interface commands that drive them.

use vstd::prelude::*;

pub mod granule;
pub mod laws;
pub mod mem;
pub mod realm;
pub mod rec;
pub mod registry;
pub mod rmi;
pub mod smc;
pub mod stage2;

verus! {

/// Monitor-internal error kinds.
#[derive(Clone, Copy, Debug, PartialEq, Eq, Structural)]
pub enum RmmError {
    /// A registry or granule-table lookup missed.
    NotFound,
    /// A bad argument: misalignment, a granule transition outside the
    /// permitted graph, an unknown realm, or a wrong lifecycle state.
    InputError,
}

/// Size in bytes of one granule, the unit of physical memory the monitor tracks.
pub const GRANULE_SIZE: usize = 4096;

/// Version word reported by the version command.
pub const ABI_VERSION: usize = 1;

/// Status word: the command succeeded.
pub const SUCCESS: usize = 0;

/// Status word: the command failed for a reason other than a bad argument.
pub const RET_FAIL: usize = 1;

/// Status word: a bad argument (misalignment, wrong granule state, unknown
/// realm, wrong realm lifecycle state).
pub const ERROR_INPUT: usize = 2;

/// True when `pa` lies on a granule boundary.
pub open spec fn spec_granule_aligned(pa: usize) -> bool {
    pa % 4096 == 0
}

/// Alignment test used by every handler that takes an address argument.
pub fn granule_aligned(pa: usize) -> (r: bool)
    ensures
        r == spec_granule_aligned(pa),
{
    pa % GRANULE_SIZE == 0
}

} // verus!
