//! The granule table: the monitor-wide record of the tracked state of every
//! 4 KiB physical page, and the monitor's own virtual-memory view of the
//! pages it has mapped for itself.

use crate::RmmError;
use std::collections::HashMap;
use vstd::prelude::*;

verus! {

broadcast use vstd::std_specs::hash::group_hash_axioms;

/// Tracked state of one granule. `Undelegated` describes a granule the table
/// holds no entry for; it is never stored in the table itself.
#[derive(Clone, Copy, Debug, PartialEq, Eq, Structural)]
pub enum GranuleState {
    Undelegated,
    Delegated,
    Data,
    Rtt,
    Rec,
    Rd,
}

/// True of the states in which a granule is in use by the monitor and mapped
/// into the monitor's own address space.
pub open spec fn spec_in_use(s: GranuleState) -> bool {
    s == GranuleState::Data || s == GranuleState::Rtt || s == GranuleState::Rec
        || s == GranuleState::Rd
}

/// The permitted transition graph. Every in-use state is entered from
/// `Delegated` and leaves to `Delegated`, so the hardware unmarking call has a
/// single choke point; `Delegated` round-trips with `Undelegated`.
pub open spec fn spec_transition_ok(cur: GranuleState, new: GranuleState) -> bool {
    match (cur, new) {
        (GranuleState::Undelegated, GranuleState::Delegated) => true,
        (GranuleState::Delegated, GranuleState::Undelegated) => true,
        (GranuleState::Delegated, GranuleState::Data) => true,
        (GranuleState::Data, GranuleState::Delegated) => true,
        (GranuleState::Delegated, GranuleState::Rtt) => true,
        (GranuleState::Rtt, GranuleState::Delegated) => true,
        (GranuleState::Delegated, GranuleState::Rec) => true,
        (GranuleState::Rec, GranuleState::Delegated) => true,
        (GranuleState::Delegated, GranuleState::Rd) => true,
        (GranuleState::Rd, GranuleState::Delegated) => true,
        _ => false,
    }
}

/// The state the table records for `pa`: the entry when there is one, and
/// `Undelegated` when the granule is untracked.
pub open spec fn spec_state_of(t: Map<usize, GranuleState>, pa: usize) -> GranuleState {
    if t.contains_key(pa) {
        t[pa]
    } else {
        GranuleState::Undelegated
    }
}

/// The monitor's own virtual-memory view: which granules the monitor has
/// mapped into its address space, and whether writably.
pub struct Mm {
    mapped: HashMap<usize, bool>,
}

impl View for Mm {
    type V = Map<usize, bool>;

    closed spec fn view(&self) -> Map<usize, bool> {
        self.mapped@
    }
}

impl Mm {
    /// A view with nothing mapped.
    pub fn new() -> (mm: Mm)
        ensures
            mm@ == Map::<usize, bool>::empty(),
    {
        Mm { mapped: HashMap::new() }
    }

    /// Map `pa` into the monitor, writably when `writable` is set.
    pub fn map(&mut self, pa: usize, writable: bool)
        ensures
            final(self)@ == old(self)@.insert(pa, writable),
    {
        let _ = self.mapped.insert(pa, writable);
    }

    /// Drop the monitor's mapping of `pa`, if any.
    pub fn unmap(&mut self, pa: usize)
        ensures
            final(self)@ == old(self)@.remove(pa),
    {
        let _ = self.mapped.remove(&pa);
    }
}

/// The monitor-wide map from granule physical address to tracked state.
pub struct GranuleTable {
    entries: HashMap<usize, GranuleState>,
}

impl View for GranuleTable {
    type V = Map<usize, GranuleState>;

    closed spec fn view(&self) -> Map<usize, GranuleState> {
        self.entries@
    }
}

/// Exec mirror of the transition graph.
pub fn transition_ok(cur: GranuleState, new: GranuleState) -> (r: bool)
    ensures
        r == spec_transition_ok(cur, new),
{
    match (cur, new) {
        (GranuleState::Undelegated, GranuleState::Delegated) => true,
        (GranuleState::Delegated, GranuleState::Undelegated) => true,
        (GranuleState::Delegated, GranuleState::Data) => true,
        (GranuleState::Data, GranuleState::Delegated) => true,
        (GranuleState::Delegated, GranuleState::Rtt) => true,
        (GranuleState::Rtt, GranuleState::Delegated) => true,
        (GranuleState::Delegated, GranuleState::Rec) => true,
        (GranuleState::Rec, GranuleState::Delegated) => true,
        (GranuleState::Delegated, GranuleState::Rd) => true,
        (GranuleState::Rd, GranuleState::Delegated) => true,
        _ => false,
    }
}

impl GranuleTable {
    /// No entry is ever stored for an untracked (`Undelegated`) granule.
    pub open spec fn wf(&self) -> bool {
        forall|pa: usize|
            #[trigger] self@.contains_key(pa) ==> self@[pa] != GranuleState::Undelegated
    }

    /// An empty table: no granule is tracked.
    pub fn new() -> (t: GranuleTable)
        ensures
            t@ == Map::<usize, GranuleState>::empty(),
            t.wf(),
    {
        GranuleTable { entries: HashMap::new() }
    }

    /// The recorded state of `pa`; `Undelegated` when untracked.
    pub fn state_of(&self, pa: usize) -> (s: GranuleState)
        ensures
            s == spec_state_of(self@, pa),
    {
        match self.entries.get(&pa) {
            Some(s) => *s,
            None => GranuleState::Undelegated,
        }
    }

    /// Look up `pa` and demand that it is tracked in `expected` state; a miss
    /// or a different state is `NotFound`.
    pub fn find(&self, pa: usize, expected: GranuleState) -> (r: Result<GranuleState, RmmError>)
        ensures
            r is Ok <==> (self@.contains_key(pa) && self@[pa] == expected),
            r is Ok ==> r->Ok_0 == expected,
            r is Err ==> r->Err_0 == RmmError::NotFound,
    {
        match self.entries.get(&pa) {
            Some(s) => {
                if *s == expected {
                    Ok(*s)
                } else {
                    Err(RmmError::NotFound)
                }
            },
            None => Err(RmmError::NotFound),
        }
    }

    /// Record the transition of `pa` to `new`, refusing any transition outside
    /// the permitted graph. Entering an in-use state maps the granule into the
    /// monitor writably; leaving one back to `Delegated` unmaps it; leaving to
    /// `Undelegated` drops the entry altogether.
    pub fn set_state(&mut self, pa: usize, new: GranuleState, mm: &mut Mm) -> (r: Result<
        (),
        RmmError,
    >)
        ensures
            r is Ok <==> spec_transition_ok(spec_state_of(old(self)@, pa), new),
            r is Err ==> r->Err_0 == RmmError::InputError && final(self)@ == old(self)@
                && final(mm)@ == old(mm)@,
            r is Ok ==> final(self)@ == (if new == GranuleState::Undelegated {
                old(self)@.remove(pa)
            } else {
                old(self)@.insert(pa, new)
            }),
            r is Ok ==> final(mm)@ == (if spec_in_use(new) {
                old(mm)@.insert(pa, true)
            } else if spec_in_use(spec_state_of(old(self)@, pa)) {
                old(mm)@.remove(pa)
            } else {
                old(mm)@
            }),
            old(self).wf() ==> final(self).wf(),
    {
        let cur = self.state_of(pa);
        if !transition_ok(cur, new) {
            return Err(RmmError::InputError);
        }
        match new {
            GranuleState::Undelegated => {
                let _ = self.entries.remove(&pa);
            },
            GranuleState::Delegated => {
                let _ = self.entries.insert(pa, new);
                match cur {
                    GranuleState::Data | GranuleState::Rtt | GranuleState::Rec
                        | GranuleState::Rd => mm.unmap(pa),
                    _ => {},
                }
            },
            _ => {
                let _ = self.entries.insert(pa, new);
                mm.map(pa, true);
            },
        }
        Ok(())
    }
}

} // verus!
