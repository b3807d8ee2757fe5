//! Realms and their virtual CPUs. A realm owns its stage-2 translator and a
//! fixed vector of VCPUs; each VCPU points back at its owner by realm id, a
//! non-owning handle that is resolved through the registry on use.

use crate::stage2::Stage2Table;
use vstd::prelude::*;

verus! {

/// Lifecycle state of a realm: created, activated, or shut off.
#[derive(Clone, Copy, Debug, PartialEq, Eq, Structural)]
pub enum State {
    New,
    Active,
    SystemOff,
}

/// A realm descriptor: the identity and lifecycle state of a realm as held in
/// its descriptor granule, and copied into each REC that the realm owns.
#[derive(Clone, Copy, Debug, PartialEq, Eq, Structural)]
pub struct Rd {
    id: usize,
    state: State,
}

impl Rd {
    /// The realm id the descriptor carries.
    pub closed spec fn spec_id(&self) -> usize {
        self.id
    }

    /// The lifecycle state the descriptor carries.
    pub closed spec fn spec_state(&self) -> State {
        self.state
    }

    /// A descriptor with the given identity and state.
    pub fn new(id: usize, state: State) -> (rd: Rd)
        ensures
            rd.spec_id() == id,
            rd.spec_state() == state,
    {
        Rd { id, state }
    }

    /// Overwrite the descriptor with the given identity and state.
    pub fn init_with_state(&mut self, id: usize, state: State)
        ensures
            final(self).spec_id() == id,
            final(self).spec_state() == state,
    {
        self.id = id;
        self.state = state;
    }

    /// The realm id the descriptor carries.
    pub fn id(&self) -> (id: usize)
        ensures
            id == self.spec_id(),
    {
        self.id
    }

    /// The lifecycle state the descriptor carries.
    pub fn state(&self) -> (s: State)
        ensures
            s == self.spec_state(),
    {
        self.state
    }

    /// Whether the descriptor is in the given lifecycle state.
    pub fn at_state(&self, s: State) -> (r: bool)
        ensures
            r == (self.spec_state() == s),
    {
        self.state == s
    }

    /// Move the descriptor to the given lifecycle state.
    pub fn set_state(&mut self, s: State)
        ensures
            final(self).spec_state() == s,
            final(self).spec_id() == old(self).spec_id(),
    {
        self.state = s;
    }
}

/// Number of general registers a VCPU context carries.
pub const NR_GP_REGS: usize = 31;

/// The architectural context of one VCPU: general registers and the exception
/// return state.
pub struct Context {
    pub gp: Vec<u64>,
    pub elr: u64,
    pub spsr: u64,
}

impl Context {
    /// The context always carries its full register file.
    pub open spec fn wf(&self) -> bool {
        self.gp@.len() == 31
    }

    /// A zeroed context.
    pub fn new() -> (c: Context)
        ensures
            c.wf(),
            c.gp@ == Seq::new(31, |i: int| 0u64),
            c.elr == 0 && c.spsr == 0,
    {
        let mut gp: Vec<u64> = Vec::new();
        let mut i: usize = 0;
        while i < NR_GP_REGS
            invariant
                i <= 31,
                gp@ =~= Seq::new(i as nat, |j: int| 0u64),
            decreases 31 - i,
        {
            gp.push(0);
            i = i + 1;
        }
        proof {
            assert(gp@ =~= Seq::new(31, |i: int| 0u64));
        }
        Context { gp, elr: 0, spsr: 0 }
    }

    /// Read one general register.
    pub fn get_gp(&self, i: usize) -> (v: u64)
        requires
            self.wf(),
            i < 31,
        ensures
            v == self.gp@[i as int],
    {
        self.gp[i]
    }

    /// Write one general register.
    pub fn set_gp(&mut self, i: usize, v: u64)
        requires
            old(self).wf(),
            i < 31,
        ensures
            final(self).wf(),
            final(self).gp@ == old(self).gp@.update(i as int, v),
            final(self).elr == old(self).elr && final(self).spsr == old(self).spsr,
    {
        self.gp[i] = v;
    }
}

/// One virtual CPU. `owner` is the id of the realm the VCPU belongs to: a
/// non-owning back-reference, resolved through the registry, that legitimately
/// stops resolving once the realm is destroyed.
pub struct Vcpu {
    pub owner: usize,
    pub context: Context,
}

impl Vcpu {
    /// The context is complete.
    pub open spec fn wf(&self) -> bool {
        self.context.wf()
    }

    /// A fresh VCPU of the given realm, with a zeroed context.
    pub fn new(owner: usize) -> (v: Vcpu)
        ensures
            v.owner == owner,
            v.wf(),
    {
        Vcpu { owner, context: Context::new() }
    }
}

/// One realm: its identity, lifecycle state, VCPUs and stage-2 translator.
pub struct Realm {
    pub id: usize,
    pub state: State,
    pub vcpus: Vec<Vcpu>,
    pub s2: Stage2Table,
}

impl Realm {
    /// The translator belongs to this realm and every VCPU points back at it.
    pub open spec fn wf(&self) -> bool {
        &&& self.s2.wf()
        &&& self.s2.spec_realm_id() == self.id
        &&& forall|i: int| 0 <= i < self.vcpus@.len() ==> (#[trigger] self.vcpus@[i]).owner
            == self.id
        &&& forall|i: int| 0 <= i < self.vcpus@.len() ==> (#[trigger] self.vcpus@[i]).wf()
    }

    /// A new realm: state `New`, an empty translator parameterized by the
    /// realm id, and `num_vcpu` fresh VCPUs that all point back at it.
    pub fn new(id: usize, num_vcpu: usize) -> (r: Realm)
        ensures
            r.wf(),
            r.id == id,
            r.state == State::New,
            r.vcpus@.len() == num_vcpu,
            r.s2@ == Map::<usize, (usize, usize)>::empty(),
    {
        let mut vcpus: Vec<Vcpu> = Vec::new();
        let mut i: usize = 0;
        while i < num_vcpu
            invariant
                i <= num_vcpu,
                vcpus@.len() == i,
                forall|j: int| 0 <= j < i ==> (#[trigger] vcpus@[j]).owner == id,
                forall|j: int| 0 <= j < i ==> (#[trigger] vcpus@[j]).wf(),
            decreases num_vcpu - i,
        {
            vcpus.push(Vcpu::new(id));
            i = i + 1;
        }
        Realm { id, state: State::New, vcpus, s2: Stage2Table::new(id) }
    }

    /// The realm's id.
    pub fn id(&self) -> (id: usize)
        ensures
            id == self.id,
    {
        self.id
    }

    /// The realm's lifecycle state.
    pub fn state(&self) -> (s: State)
        ensures
            s == self.state,
    {
        self.state
    }

    /// Whether the realm is in the given lifecycle state.
    pub fn at_state(&self, s: State) -> (r: bool)
        ensures
            r == (self.state == s),
    {
        self.state == s
    }

    /// Move the realm to the given lifecycle state; nothing else changes.
    pub fn set_state(&mut self, s: State)
        ensures
            final(self).state == s,
            final(self).id == old(self).id,
            final(self).vcpus == old(self).vcpus,
            final(self).s2 == old(self).s2,
            old(self).wf() ==> final(self).wf(),
    {
        self.state = s;
    }
}

} // verus!
