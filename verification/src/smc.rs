//! Gateway to the firmware below the monitor: the secure-monitor calls that
//! move granules between security states, and the firmware's own record of
//! which granules are realm-owned.

use crate::RET_FAIL;
use crate::SUCCESS;
use crate::spec_granule_aligned;
use std::collections::HashSet;
use vstd::prelude::*;

verus! {

broadcast use vstd::std_specs::hash::group_hash_axioms;

/// Secure-monitor command: mark a granule realm-owned.
pub const SMC_MARK_REALM: usize = 0x1B0;

/// Secure-monitor command: return a granule to the non-secure world.
pub const SMC_MARK_NONSECURE: usize = 0x1B1;

/// Secure-monitor command: yield back to the firmware with a reply vector.
pub const RMM_REQ_COMPLETE: usize = 0x1B2;

/// The firmware's record of granule security: the set of physical addresses
/// it holds marked realm-owned. The monitor's granule table must agree with
/// this set at every quiescent point.
pub struct Firmware {
    marked: HashSet<usize>,
}

impl View for Firmware {
    type V = Set<usize>;

    closed spec fn view(&self) -> Set<usize> {
        self.marked@
    }
}

impl Firmware {
    /// A firmware that has marked nothing: all memory is non-secure.
    pub fn new() -> (fw: Firmware)
        ensures
            fw@ == Set::<usize>::empty(),
    {
        Firmware { marked: HashSet::new() }
    }

    /// Marking succeeds exactly on an aligned granule that is not yet marked.
    pub fn mark_realm(&mut self, pa: usize) -> (r: usize)
        ensures
            spec_granule_aligned(pa) && !old(self)@.contains(pa) ==> r == SUCCESS
                && final(self)@ == old(self)@.insert(pa),
            !(spec_granule_aligned(pa) && !old(self)@.contains(pa)) ==> r == RET_FAIL
                && final(self)@ == old(self)@,
    {
        if pa % crate::GRANULE_SIZE == 0 && !self.marked.contains(&pa) {
            self.marked.insert(pa);
            SUCCESS
        } else {
            RET_FAIL
        }
    }

    /// Unmarking succeeds exactly on an aligned granule that is marked.
    pub fn mark_non_secure(&mut self, pa: usize) -> (r: usize)
        ensures
            spec_granule_aligned(pa) && old(self)@.contains(pa) ==> r == SUCCESS
                && final(self)@ == old(self)@.remove(pa),
            !(spec_granule_aligned(pa) && old(self)@.contains(pa)) ==> r == RET_FAIL
                && final(self)@ == old(self)@,
    {
        if pa % crate::GRANULE_SIZE == 0 && self.marked.contains(&pa) {
            self.marked.remove(&pa);
            SUCCESS
        } else {
            RET_FAIL
        }
    }

    /// The call convention of the gateway: command code plus four argument
    /// words in, four return words out, status first.
    pub fn call(&mut self, cmd: usize, args: [usize; 4]) -> (ret: [usize; 4])
        ensures
            ret@.len() == 4,
            ret[1] == 0 && ret[2] == 0 && ret[3] == 0,
            cmd == SMC_MARK_REALM ==> {
                &&& (spec_granule_aligned(args[0]) && !old(self)@.contains(args[0]) ==> ret[0]
                    == SUCCESS && final(self)@ == old(self)@.insert(args[0]))
                &&& (!(spec_granule_aligned(args[0]) && !old(self)@.contains(args[0])) ==> ret[0]
                    == RET_FAIL && final(self)@ == old(self)@)
            },
            cmd == SMC_MARK_NONSECURE ==> {
                &&& (spec_granule_aligned(args[0]) && old(self)@.contains(args[0]) ==> ret[0]
                    == SUCCESS && final(self)@ == old(self)@.remove(args[0]))
                &&& (!(spec_granule_aligned(args[0]) && old(self)@.contains(args[0])) ==> ret[0]
                    == RET_FAIL && final(self)@ == old(self)@)
            },
            cmd == RMM_REQ_COMPLETE ==> ret[0] == SUCCESS && final(self)@ == old(self)@,
            cmd != SMC_MARK_REALM && cmd != SMC_MARK_NONSECURE && cmd != RMM_REQ_COMPLETE
                ==> ret[0] == RET_FAIL && final(self)@ == old(self)@,
    {
        if cmd == SMC_MARK_REALM {
            let r = self.mark_realm(args[0]);
            [r, 0, 0, 0]
        } else if cmd == SMC_MARK_NONSECURE {
            let r = self.mark_non_secure(args[0]);
            [r, 0, 0, 0]
        } else if cmd == RMM_REQ_COMPLETE {
            [SUCCESS, 0, 0, 0]
        } else {
            [RET_FAIL, 0, 0, 0]
        }
    }
}

} // verus!
