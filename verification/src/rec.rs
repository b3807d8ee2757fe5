//! The realm execution context (REC): the per-VCPU control block. It carries
//! a copy of the owning realm's descriptor, the physical address of that
//! descriptor's granule, the VCPU id, and the RIPAS cursor used by the
//! range-walking realm-IPA-state commands.

use crate::realm::Rd;
use crate::realm::State;
use vstd::prelude::*;

verus! {

/// The RIPAS cursor: a walk over `[start, end)` with `addr` as the running
/// pointer and `state` the realm-IPA state being applied.
#[derive(Clone, Copy, Debug, PartialEq, Eq, Structural)]
pub struct Ripas {
    pub start: u64,
    pub end: u64,
    pub addr: u64,
    pub state: u8,
}

/// One realm execution context.
pub struct Rec {
    rd: Rd,
    /// Physical address of the descriptor granule of the owning realm.
    owner: usize,
    vcpuid: usize,
    ripas: Ripas,
}

impl Rec {
    /// The copy of the owning realm's descriptor.
    pub closed spec fn spec_rd(&self) -> Rd {
        self.rd
    }

    /// The descriptor granule address of the owning realm.
    pub closed spec fn spec_owner(&self) -> usize {
        self.owner
    }

    /// The VCPU this context backs.
    pub closed spec fn spec_id(&self) -> usize {
        self.vcpuid
    }

    /// The RIPAS cursor.
    pub closed spec fn spec_ripas(&self) -> Ripas {
        self.ripas
    }

    /// Fill the context: copy the realm's descriptor in, record the owner and
    /// VCPU id, and reset the RIPAS cursor.
    pub fn init(&mut self, owner: usize, rd_id: usize, rd_state: State, vcpuid: usize)
        ensures
            final(self).spec_rd().spec_id() == rd_id,
            final(self).spec_rd().spec_state() == rd_state,
            final(self).spec_owner() == owner,
            final(self).spec_id() == vcpuid,
            final(self).spec_ripas() == (Ripas { start: 0, end: 0, addr: 0, state: 0 }),
    {
        self.rd.init_with_state(rd_id, rd_state);
        self.owner = owner;
        self.vcpuid = vcpuid;
        self.set_ripas(0, 0, 0, 0);
    }

    /// The VCPU id of this context.
    pub fn id(&self) -> (id: usize)
        ensures
            id == self.spec_id(),
    {
        self.vcpuid
    }

    /// The descriptor granule address of the owning realm.
    pub fn owner(&self) -> (pa: usize)
        ensures
            pa == self.spec_owner(),
    {
        self.owner
    }

    /// Load the RIPAS cursor for a fresh range walk.
    pub fn set_ripas(&mut self, start: u64, end: u64, addr: u64, state: u8)
        ensures
            final(self).spec_ripas() == (Ripas { start, end, addr, state }),
            final(self).spec_rd() == old(self).spec_rd(),
            final(self).spec_owner() == old(self).spec_owner(),
            final(self).spec_id() == old(self).spec_id(),
    {
        self.ripas.start = start;
        self.ripas.end = end;
        self.ripas.addr = addr;
        self.ripas.state = state;
    }

    /// Advance the cursor's running pointer by `size` bytes.
    pub fn inc_ripas_addr(&mut self, size: u64)
        requires
            old(self).spec_ripas().addr + size <= u64::MAX,
        ensures
            final(self).spec_ripas() == (Ripas {
                addr: (old(self).spec_ripas().addr + size) as u64,
                ..old(self).spec_ripas()
            }),
            final(self).spec_rd() == old(self).spec_rd(),
            final(self).spec_owner() == old(self).spec_owner(),
            final(self).spec_id() == old(self).spec_id(),
    {
        self.ripas.addr = self.ripas.addr + size;
    }

    /// The cursor's running pointer.
    pub fn ripas_addr(&mut self) -> (addr: u64)
        ensures
            addr == old(self).spec_ripas().addr,
            *final(self) == *old(self),
    {
        self.ripas.addr
    }

    /// The realm-IPA state the cursor applies.
    pub fn ripas_state(&self) -> (s: u8)
        ensures
            s == self.spec_ripas().state,
    {
        self.ripas.state
    }

    /// The exclusive upper bound of the cursor's walk.
    pub fn ripas_end(&self) -> (end: u64)
        ensures
            end == self.spec_ripas().end,
    {
        self.ripas.end
    }
}

impl Default for Rec {
    /// An empty context: zeroed cursor and identity, descriptor of realm 0 in
    /// state `New`, waiting to be filled by `init`.
    fn default() -> (rec: Rec)
        ensures
            rec.spec_rd().spec_id() == 0,
            rec.spec_rd().spec_state() == State::New,
            rec.spec_owner() == 0,
            rec.spec_id() == 0,
            rec.spec_ripas() == (Ripas { start: 0, end: 0, addr: 0, state: 0 }),
    {
        Rec {
            rd: Rd::new(0, State::New),
            owner: 0,
            vcpuid: 0,
            ripas: Ripas { start: 0, end: 0, addr: 0, state: 0 },
        }
    }
}

} // verus!
