//! The realm management interface: the monitor-wide state bundle, one handler
//! per command code, and the dispatcher that routes a command plus argument
//! vector to its handler and yields a reply vector.

use crate::ABI_VERSION;
use crate::ERROR_INPUT;
use crate::GRANULE_SIZE;
use crate::RET_FAIL;
use crate::SUCCESS;
use crate::granule::GranuleState;
use crate::granule::GranuleTable;
use crate::granule::Mm;
use crate::mem::PhysMemory;
use crate::mem::spec_page_at;
use crate::realm::Realm;
use crate::realm::State;
use crate::registry::Registry;
use crate::registry::contains_id;
use crate::registry::lemma_realm_at;
use crate::registry::spec_realm_of;
use crate::smc::Firmware;
use crate::smc::SMC_MARK_NONSECURE;
use crate::smc::SMC_MARK_REALM;
use crate::spec_granule_aligned;
use crate::stage2::MAP_PROT_NS_PAS;
use crate::stage2::MapProt;
use vstd::prelude::*;

verus! {

/// Command code: report the interface version.
pub const CMD_VERSION: usize = 0x150;

/// Command code: delegate a granule to the realm world.
pub const CMD_GRANULE_DELEGATE: usize = 0x151;

/// Command code: return a delegated granule to the normal world.
pub const CMD_GRANULE_UNDELEGATE: usize = 0x152;

/// Command code: create a realm with a number of VCPUs.
pub const CMD_VM_CREATE: usize = 0x153;

/// Command code: make a VCPU of a realm current on this core.
pub const CMD_VM_SWITCH: usize = 0x154;

/// Command code: resume the current realm (placeholder).
pub const CMD_VM_RESUME: usize = 0x155;

/// Command code: destroy a realm.
pub const CMD_VM_DESTROY: usize = 0x156;

/// Command code: populate a realm data granule from a source page.
pub const CMD_DATA_CREATE: usize = 0x157;

/// Command code: return a realm data granule to the delegated state.
pub const CMD_DATA_DESTROY: usize = 0x158;

/// Command code: initialize a realm-IPA-state range (stub).
pub const CMD_RTT_INIT_RIPAS: usize = 0x159;

/// Command code: read a translation-table entry (stub).
pub const CMD_RTT_READ_ENTRY: usize = 0x15A;

/// Command code: map an unprotected IPA to a non-secure host page.
pub const CMD_RTT_MAP_UNPROTECTED: usize = 0x15B;

/// The VCPU that is current on this core.
#[derive(Clone, Copy, Debug, PartialEq, Eq, Structural)]
pub struct CurrentVcpu {
    pub realm_id: usize,
    pub vcpu_id: usize,
}

/// What the idle hook decides before the dispatch loop blocks again.
#[derive(Clone, Copy, Debug, PartialEq, Eq, Structural)]
pub enum IdleAction {
    /// No VCPU is current: keep waiting.
    Wait,
    /// The current VCPU's realm is gone; it was detached from this core.
    Detached,
    /// Exit the monitor into the given realm and VCPU until the next trap.
    EnterRealm(usize, usize),
}

/// The monitor-wide services one core's dispatch loop works on: the granule
/// table, the monitor's own memory view, the firmware gateway, physical
/// memory, the realm registry, and the current-VCPU slot of this core.
pub struct Monitor {
    pub granules: GranuleTable,
    pub mm: Mm,
    pub fw: Firmware,
    pub mem: PhysMemory,
    pub registry: Registry,
    pub current: Option<CurrentVcpu>,
}

impl Monitor {
    /// The monitor invariant: the parts are well formed, and the set of
    /// tracked granules is exactly the set the firmware holds marked
    /// realm-owned. Every tracked state means realm-owned, so the two views
    /// of memory security agree.
    pub open spec fn wf(&self) -> bool {
        &&& self.granules.wf()
        &&& self.registry.wf()
        &&& self.mem.wf()
        &&& self.granules@.dom() == self.fw@
    }

    /// The monitor at boot: nothing tracked, no realm, no current VCPU.
    pub fn new() -> (m: Monitor)
        ensures
            m.wf(),
            m.granules@ == Map::<usize, GranuleState>::empty(),
            m.fw@ == Set::<usize>::empty(),
            m.mm@ == Map::<usize, bool>::empty(),
            m.mem@ == Map::<usize, Seq<u8>>::empty(),
            m.registry.next_id == 0,
            m.registry.realms@ == Seq::<Realm>::empty(),
            m.current is None,
    {
        let m = Monitor {
            granules: GranuleTable::new(),
            mm: Mm::new(),
            fw: Firmware::new(),
            mem: PhysMemory::new(),
            registry: Registry::empty(),
            current: None,
        };
        proof {
            assert(m.granules@.dom() =~= m.fw@);
        }
        m
    }
}

/// Nothing visible in the monitor differs between the two states.
pub open spec fn monitor_unchanged(pre: Monitor, post: Monitor) -> bool {
    &&& post.granules@ == pre.granules@
    &&& post.fw@ == pre.fw@
    &&& post.mm@ == pre.mm@
    &&& post.mem@ == pre.mem@
    &&& post.registry.next_id == pre.registry.next_id
    &&& post.registry.realms@ == pre.registry.realms@
    &&& post.current == pre.current
}

/// Delegation succeeds exactly on an aligned granule the firmware does not
/// already hold marked; then the granule enters the table as `Delegated` and
/// the firmware marks it, in one step.
pub open spec fn delegate_post(pre: Monitor, post: Monitor, r: usize, pa: usize) -> bool {
    &&& post.mm@ == pre.mm@ && post.mem@ == pre.mem@ && post.current == pre.current
    &&& post.registry.next_id == pre.registry.next_id && post.registry.realms@
        == pre.registry.realms@
    &&& !spec_granule_aligned(pa) ==> r == ERROR_INPUT && post.granules@ == pre.granules@
        && post.fw@ == pre.fw@
    &&& spec_granule_aligned(pa) && pre.fw@.contains(pa) ==> r == RET_FAIL && post.granules@
        == pre.granules@ && post.fw@ == pre.fw@
    &&& spec_granule_aligned(pa) && !pre.fw@.contains(pa) ==> r == SUCCESS && post.granules@
        == pre.granules@.insert(pa, GranuleState::Delegated) && post.fw@ == pre.fw@.insert(pa)
}

/// Undelegation is owed exactly on a granule tracked `Delegated`; then the
/// entry leaves the table and the firmware unmarks the granule, in one step.
pub open spec fn undelegate_ok(pre: Monitor, pa: usize) -> bool {
    spec_granule_aligned(pa) && pre.granules@.contains_key(pa) && pre.granules@[pa]
        == GranuleState::Delegated
}

/// See `undelegate_ok`; any other request is refused unchanged.
pub open spec fn undelegate_post(pre: Monitor, post: Monitor, r: usize, pa: usize) -> bool {
    &&& post.mm@ == pre.mm@ && post.mem@ == pre.mem@ && post.current == pre.current
    &&& post.registry.next_id == pre.registry.next_id && post.registry.realms@
        == pre.registry.realms@
    &&& undelegate_ok(pre, pa) ==> r == SUCCESS && post.granules@ == pre.granules@.remove(pa)
        && post.fw@ == pre.fw@.remove(pa)
    &&& !undelegate_ok(pre, pa) ==> r == ERROR_INPUT && post.granules@ == pre.granules@
        && post.fw@ == pre.fw@
}

/// Creating a realm issues the next id, never one issued before, and builds
/// exactly the requested number of VCPUs, each pointing back at the realm.
pub open spec fn vm_create_post(pre: Monitor, post: Monitor, r: usize, n: usize) -> bool {
    &&& post.granules@ == pre.granules@ && post.fw@ == pre.fw@ && post.mm@ == pre.mm@
        && post.mem@ == pre.mem@ && post.current == pre.current
    &&& pre.registry.next_id < usize::MAX ==> {
        &&& r == pre.registry.next_id
        &&& !contains_id(pre.registry.realms@, r)
        &&& post.registry.next_id == pre.registry.next_id + 1
        &&& post.registry.realms@.len() == pre.registry.realms@.len() + 1
        &&& forall|j: int|
            0 <= j < pre.registry.realms@.len() ==> post.registry.realms@[j]
                == pre.registry.realms@[j]
        &&& post.registry.realms@.last().id == r
        &&& post.registry.realms@.last().state == State::New
        &&& post.registry.realms@.last().vcpus@.len() == n
        &&& forall|k: int|
            0 <= k < n ==> (#[trigger] post.registry.realms@.last().vcpus@[k]).owner == r
        &&& post.registry.realms@.last().s2@ == Map::<usize, (usize, usize)>::empty()
    }
    &&& pre.registry.next_id == usize::MAX ==> r == usize::MAX && post.registry.next_id
        == pre.registry.next_id && post.registry.realms@ == pre.registry.realms@
}

/// Switching is owed exactly to a live, `Active` realm and an existing VCPU;
/// then that VCPU becomes current on this core.
pub open spec fn vm_switch_ok(pre: Monitor, rid: usize, vid: usize) -> bool {
    &&& contains_id(pre.registry.realms@, rid)
    &&& spec_realm_of(pre.registry.realms@, rid).state == State::Active
    &&& vid < spec_realm_of(pre.registry.realms@, rid).vcpus@.len()
}

/// See `vm_switch_ok`; any other request is refused unchanged.
pub open spec fn vm_switch_post(pre: Monitor, post: Monitor, r: usize, rid: usize, vid: usize) -> bool {
    &&& post.granules@ == pre.granules@ && post.fw@ == pre.fw@ && post.mm@ == pre.mm@
        && post.mem@ == pre.mem@
    &&& post.registry.next_id == pre.registry.next_id && post.registry.realms@
        == pre.registry.realms@
    &&& vm_switch_ok(pre, rid, vid) ==> r == SUCCESS && post.current == Some(
        CurrentVcpu { realm_id: rid, vcpu_id: vid },
    )
    &&& !vm_switch_ok(pre, rid, vid) ==> r == ERROR_INPUT && post.current == pre.current
}

/// Destroying a live realm drops it from the registry and answers 0; an
/// unknown id answers the all-ones word. The id counter never moves, so a
/// destroyed id is never issued again.
pub open spec fn vm_destroy_post(pre: Monitor, post: Monitor, r: usize, rid: usize) -> bool {
    &&& post.granules@ == pre.granules@ && post.fw@ == pre.fw@ && post.mm@ == pre.mm@
        && post.mem@ == pre.mem@ && post.current == pre.current
    &&& post.registry.next_id == pre.registry.next_id
    &&& contains_id(pre.registry.realms@, rid) ==> {
        &&& r == 0
        &&& post.registry.realms@.len() == pre.registry.realms@.len() - 1
        &&& !contains_id(post.registry.realms@, rid)
        &&& forall|id2: usize|
            id2 != rid ==> #[trigger] contains_id(post.registry.realms@, id2) == contains_id(
                pre.registry.realms@,
                id2,
            )
        &&& forall|j: int|
            0 <= j < post.registry.realms@.len() ==> exists|i: int|
                0 <= i < pre.registry.realms@.len() && pre.registry.realms@[i]
                    == #[trigger] post.registry.realms@[j]
    }
    &&& !contains_id(pre.registry.realms@, rid) ==> r == usize::MAX && post.registry.realms@
        == pre.registry.realms@
}

/// The registries agree except that the realm carrying `rid` now has `s2m` as
/// its stage-2 mapping; its identity, state and VCPUs are untouched.
pub open spec fn s2_updated(pre: Registry, post: Registry, rid: usize, s2m: Map<usize, (usize, usize)>) -> bool {
    &&& post.next_id == pre.next_id
    &&& post.realms@.len() == pre.realms@.len()
    &&& forall|j: int|
        0 <= j < pre.realms@.len() && (#[trigger] pre.realms@[j]).id != rid ==> post.realms@[j]
            == pre.realms@[j]
    &&& forall|j: int|
        0 <= j < pre.realms@.len() && (#[trigger] pre.realms@[j]).id == rid ==> {
            &&& post.realms@[j].id == pre.realms@[j].id
            &&& post.realms@[j].state == pre.realms@[j].state
            &&& post.realms@[j].vcpus == pre.realms@[j].vcpus
            &&& post.realms@[j].s2@ == s2m
        }
}

/// The data-create preconditions: aligned, non-wrapping addresses, a live
/// realm still in `New`, and a target granule tracked `Delegated`.
pub open spec fn data_create_ok(pre: Monitor, target: usize, rid: usize, ipa: usize, src: usize) -> bool {
    &&& spec_granule_aligned(target) && spec_granule_aligned(src) && spec_granule_aligned(ipa)
    &&& ipa + 4096 <= usize::MAX && target + 4096 <= usize::MAX
    &&& contains_id(pre.registry.realms@, rid)
    &&& spec_realm_of(pre.registry.realms@, rid).state == State::New
    &&& pre.granules@.contains_key(target) && pre.granules@[target] == GranuleState::Delegated
}

/// A successful data-create moves the target granule to `Data`, copies the
/// source page into it byte for byte, and installs the stage-2 translation
/// `ipa -> target` in the realm's table. The failures are told apart: a
/// misalignment or a wrong granule state is refused as bad input before
/// anything changes; a realm not in `New` fails unchanged; a wrapping range
/// fails after rolling the granule back to `Delegated`.
pub open spec fn data_create_post(
    pre: Monitor,
    post: Monitor,
    r: usize,
    target: usize,
    rid: usize,
    ipa: usize,
    src: usize,
) -> bool {
    &&& post.current == pre.current && post.fw@ == pre.fw@
    &&& data_create_ok(pre, target, rid, ipa, src) ==> {
        &&& r == SUCCESS
        &&& post.granules@ == pre.granules@.insert(target, GranuleState::Data)
        &&& post.mem@ == pre.mem@.insert(target, spec_page_at(pre.mem@, src))
        &&& post.mm@ == pre.mm@.insert(target, true).insert(src, false).remove(src)
        &&& s2_updated(
            pre.registry,
            post.registry,
            rid,
            spec_realm_of(pre.registry.realms@, rid).s2@.insert(ipa, (target, 0)),
        )
    }
    &&& !(spec_granule_aligned(target) && spec_granule_aligned(src) && spec_granule_aligned(ipa))
        ==> r == ERROR_INPUT && monitor_unchanged(pre, post)
    &&& spec_granule_aligned(target) && spec_granule_aligned(src) && spec_granule_aligned(ipa)
        && !contains_id(pre.registry.realms@, rid) ==> r == ERROR_INPUT && monitor_unchanged(
        pre,
        post,
    )
    &&& spec_granule_aligned(target) && spec_granule_aligned(src) && spec_granule_aligned(ipa)
        && contains_id(pre.registry.realms@, rid) && spec_realm_of(pre.registry.realms@, rid).state
        != State::New ==> r == RET_FAIL && monitor_unchanged(pre, post)
    &&& spec_granule_aligned(target) && spec_granule_aligned(src) && spec_granule_aligned(ipa)
        && contains_id(pre.registry.realms@, rid) && spec_realm_of(pre.registry.realms@, rid).state
        == State::New && !(pre.granules@.contains_key(target) && pre.granules@[target]
        == GranuleState::Delegated) ==> r == ERROR_INPUT && monitor_unchanged(pre, post)
    &&& spec_granule_aligned(target) && spec_granule_aligned(src) && spec_granule_aligned(ipa)
        && contains_id(pre.registry.realms@, rid) && spec_realm_of(pre.registry.realms@, rid).state
        == State::New && pre.granules@.contains_key(target) && pre.granules@[target]
        == GranuleState::Delegated && !(ipa + 4096 <= usize::MAX && target + 4096 <= usize::MAX)
        ==> {
        &&& r == RET_FAIL
        &&& post.granules@ == pre.granules@
        &&& post.mem@ == pre.mem@.insert(target, spec_page_at(pre.mem@, src))
        &&& post.mm@ == pre.mm@.insert(target, true).insert(src, false).remove(target).remove(src)
        &&& post.registry.next_id == pre.registry.next_id && post.registry.realms@
            == pre.registry.realms@
    }
}

/// The data-destroy precondition: the granule is tracked as realm data.
pub open spec fn data_destroy_ok(pre: Monitor, target: usize) -> bool {
    pre.granules@.contains_key(target) && pre.granules@[target] == GranuleState::Data
}

/// A successful data-destroy returns the granule to `Delegated`, unmaps it
/// from the monitor, and evicts every stage-2 translation of every realm that
/// still referenced it. Anything not tracked `Data` is refused unchanged.
pub open spec fn data_destroy_post(pre: Monitor, post: Monitor, r: usize, target: usize) -> bool {
    &&& post.current == pre.current && post.fw@ == pre.fw@ && post.mem@ == pre.mem@
    &&& post.registry.next_id == pre.registry.next_id
    &&& data_destroy_ok(pre, target) ==> {
        &&& r == SUCCESS
        &&& post.granules@ == pre.granules@.insert(target, GranuleState::Delegated)
        &&& post.mm@ == pre.mm@.remove(target)
        &&& post.registry.realms@.len() == pre.registry.realms@.len()
        &&& forall|j: int|
            0 <= j < pre.registry.realms@.len() ==> {
                &&& (#[trigger] post.registry.realms@[j]).id == pre.registry.realms@[j].id
                &&& post.registry.realms@[j].state == pre.registry.realms@[j].state
                &&& post.registry.realms@[j].vcpus == pre.registry.realms@[j].vcpus
                &&& forall|k: usize|
                    #[trigger] post.registry.realms@[j].s2@.contains_key(k) <==> (
                    pre.registry.realms@[j].s2@.contains_key(k)
                        && pre.registry.realms@[j].s2@[k].0 != target)
                &&& forall|k: usize|
                    post.registry.realms@[j].s2@.contains_key(k)
                        ==> #[trigger] (post.registry.realms@[j].s2@[k])
                        == pre.registry.realms@[j].s2@[k]
            }
    }
    &&& !data_destroy_ok(pre, target) ==> r == ERROR_INPUT && monitor_unchanged(pre, post)
}

/// The map-unprotected preconditions: aligned, non-wrapping addresses and a
/// live realm.
pub open spec fn rtt_map_unprotected_ok(pre: Monitor, rid: usize, ipa: usize, ns_pa: usize) -> bool {
    &&& spec_granule_aligned(ipa) && spec_granule_aligned(ns_pa)
    &&& ipa + 4096 <= usize::MAX && ns_pa + 4096 <= usize::MAX
    &&& contains_id(pre.registry.realms@, rid)
}

/// A successful map-unprotected installs `ipa -> ns_pa` in the realm's
/// stage-2 table with the non-secure protection bit set; everything else is
/// untouched. A bad request is refused unchanged.
pub open spec fn rtt_map_unprotected_post(
    pre: Monitor,
    post: Monitor,
    r: usize,
    rid: usize,
    ipa: usize,
    ns_pa: usize,
) -> bool {
    &&& post.granules@ == pre.granules@ && post.fw@ == pre.fw@ && post.mm@ == pre.mm@
        && post.mem@ == pre.mem@ && post.current == pre.current
    &&& rtt_map_unprotected_ok(pre, rid, ipa, ns_pa) ==> r == SUCCESS && s2_updated(
        pre.registry,
        post.registry,
        rid,
        spec_realm_of(pre.registry.realms@, rid).s2@.insert(ipa, (ns_pa, MAP_PROT_NS_PAS)),
    )
    &&& !rtt_map_unprotected_ok(pre, rid, ipa, ns_pa) ==> r == ERROR_INPUT && monitor_unchanged(
        pre,
        post,
    )
}

impl Monitor {
    /// Delegate the granule at `pa`: issue the marking call to the firmware
    /// and, on its success, track the granule as `Delegated`.
    pub fn granule_delegate(&mut self, pa: usize) -> (r: usize)
        requires
            old(self).wf(),
        ensures
            final(self).wf(),
            delegate_post(*old(self), *final(self), r, pa),
    {
        if pa % GRANULE_SIZE != 0 {
            return ERROR_INPUT;
        }
        let ret = self.fw.call(SMC_MARK_REALM, [pa, 0, 0, 0]);
        if ret[0] != SUCCESS {
            return ret[0];
        }
        proof {
            assert(!old(self).granules@.contains_key(pa));
        }
        match self.granules.set_state(pa, GranuleState::Delegated, &mut self.mm) {
            Ok(_) => {
                proof {
                    assert(self.granules@.dom() =~= self.fw@);
                }
                SUCCESS
            },
            Err(_) => {
                // The invariant rules this out: an unmarked granule is untracked.
                proof {
                    assert(false);
                }
                ERROR_INPUT
            },
        }
    }

    /// Undelegate the granule at `pa`: demand that it is tracked `Delegated`,
    /// issue the unmarking call, and drop the entry.
    pub fn granule_undelegate(&mut self, pa: usize) -> (r: usize)
        requires
            old(self).wf(),
        ensures
            final(self).wf(),
            undelegate_post(*old(self), *final(self), r, pa),
    {
        if pa % GRANULE_SIZE != 0 {
            return ERROR_INPUT;
        }
        match self.granules.find(pa, GranuleState::Delegated) {
            Ok(_) => {},
            Err(_) => {
                return ERROR_INPUT;
            },
        }
        let ret = self.fw.call(SMC_MARK_NONSECURE, [pa, 0, 0, 0]);
        proof {
            assert(ret[0] == SUCCESS);
        }
        match self.granules.set_state(pa, GranuleState::Undelegated, &mut self.mm) {
            Ok(_) => {
                proof {
                    assert(self.granules@.dom() =~= self.fw@);
                }
                SUCCESS
            },
            Err(_) => {
                // The invariant rules this out: the granule was found delegated.
                proof {
                    assert(false);
                }
                ERROR_INPUT
            },
        }
    }

    /// Create a realm with `n` VCPUs and answer its id.
    pub fn vm_create(&mut self, n: usize) -> (r: usize)
        requires
            old(self).wf(),
        ensures
            final(self).wf(),
            vm_create_post(*old(self), *final(self), r, n),
    {
        if self.registry.next_id == usize::MAX {
            return usize::MAX;
        }
        self.registry.new(n)
    }

    /// Make VCPU `vid` of realm `rid` current on this core; only a live,
    /// `Active` realm with such a VCPU accepts the switch.
    pub fn vm_switch(&mut self, rid: usize, vid: usize) -> (r: usize)
        requires
            old(self).wf(),
        ensures
            final(self).wf(),
            vm_switch_post(*old(self), *final(self), r, rid, vid),
    {
        match self.registry.index_of(rid) {
            Some(i) => {
                proof {
                    lemma_realm_at(self.registry.realms@, i as int, rid);
                }
                let realm = &self.registry.realms[i];
                if realm.at_state(State::Active) && vid < realm.vcpus.len() {
                    self.current = Some(CurrentVcpu { realm_id: rid, vcpu_id: vid });
                    SUCCESS
                } else {
                    ERROR_INPUT
                }
            },
            None => ERROR_INPUT,
        }
    }

    /// Resumption is implicit through the idle hook; the command only
    /// answers success.
    pub fn vm_resume(&self) -> (r: usize)
        ensures
            r == SUCCESS,
    {
        SUCCESS
    }

    /// Destroy realm `rid`: drop it from the registry. Answers 0, or the
    /// all-ones word when the id is unknown.
    pub fn vm_destroy(&mut self, rid: usize) -> (r: usize)
        requires
            old(self).wf(),
        ensures
            final(self).wf(),
            vm_destroy_post(*old(self), *final(self), r, rid),
    {
        match self.registry.remove(rid) {
            Ok(_) => 0,
            Err(_) => usize::MAX,
        }
    }

    /// Measurement hook for attestation: invoked on every populated data
    /// page. This monitor records no measurement.
    pub fn measure(&self, _pa: usize) {
    }

    /// Populate the data granule at `target` for realm `rid`: move it to
    /// `Data`, copy the page at `src` into it, and install the stage-2
    /// translation `ipa -> target`.
    pub fn data_create(&mut self, target: usize, rid: usize, ipa: usize, src: usize) -> (r: usize)
        requires
            old(self).wf(),
        ensures
            final(self).wf(),
            data_create_post(*old(self), *final(self), r, target, rid, ipa, src),
    {
        if target % GRANULE_SIZE != 0 || src % GRANULE_SIZE != 0 || ipa % GRANULE_SIZE != 0 {
            return ERROR_INPUT;
        }
        let i = match self.registry.index_of(rid) {
            Some(i) => i,
            None => {
                return ERROR_INPUT;
            },
        };
        proof {
            lemma_realm_at(self.registry.realms@, i as int, rid);
        }
        if !self.registry.realms[i].at_state(State::New) {
            return RET_FAIL;
        }
        match self.granules.set_state(target, GranuleState::Data, &mut self.mm) {
            Ok(_) => {},
            Err(_) => {
                return ERROR_INPUT;
            },
        }
        self.mm.map(src, false);
        self.mem.copy_page(src, target);
        self.measure(target);
        let prot = MapProt::new(0);
        let realm = &mut self.registry.realms[i];
        let res = realm.s2.map(ipa, target, GRANULE_SIZE, prot.get());
        match res {
            Ok(_) => {
                self.mm.unmap(src);
                proof {
                    let pres2 = spec_realm_of(old(self).registry.realms@, rid).s2@;
                    assert(self.registry.realms@[i as int].s2@ =~= pres2.insert(ipa, (target, 0)));
                    assert(self.registry.wf());
                    assert(self.granules@.dom() =~= old(self).granules@.dom());
                }
                SUCCESS
            },
            Err(_) => {
                match self.granules.set_state(target, GranuleState::Delegated, &mut self.mm) {
                    Ok(_) => {},
                    Err(_) => {
                        // The granule just entered `Data`, so the way back is open.
                        proof {
                            assert(false);
                        }
                    },
                }
                self.mm.unmap(src);
                proof {
                    assert(self.granules@ =~= old(self).granules@);
                    assert(self.registry.realms@ =~= old(self).registry.realms@);
                    assert(self.registry.wf());
                    assert(self.granules@.dom() =~= old(self).granules@.dom());
                }
                RET_FAIL
            },
        }
    }

    /// Return the data granule at `target` to `Delegated` and evict every
    /// stage-2 translation, in any realm, that still referenced it.
    pub fn data_destroy(&mut self, target: usize) -> (r: usize)
        requires
            old(self).wf(),
        ensures
            final(self).wf(),
            data_destroy_post(*old(self), *final(self), r, target),
    {
        match self.granules.find(target, GranuleState::Data) {
            Ok(_) => {},
            Err(_) => {
                return ERROR_INPUT;
            },
        }
        match self.granules.set_state(target, GranuleState::Delegated, &mut self.mm) {
            Ok(_) => {},
            Err(_) => {
                // The granule was found in `Data`, so the way back is open.
                proof {
                    assert(false);
                }
            },
        }
        let mut i: usize = 0;
        let n = self.registry.realms.len();
        while i < n
            invariant
                self.registry.realms@.len() == n,
                i <= n,
                self.registry.wf(),
                forall|j: int|
                    i <= j < n ==> #[trigger] self.registry.realms@[j]
                        == old(self).registry.realms@[j],
                forall|j: int|
                    0 <= j < i ==> {
                        &&& (#[trigger] self.registry.realms@[j]).id == old(
                            self,
                        ).registry.realms@[j].id
                        &&& self.registry.realms@[j].state == old(self).registry.realms@[j].state
                        &&& self.registry.realms@[j].vcpus == old(self).registry.realms@[j].vcpus
                        &&& forall|k: usize|
                            #[trigger] self.registry.realms@[j].s2@.contains_key(k) <==> (old(
                                self,
                            ).registry.realms@[j].s2@.contains_key(k) && old(
                                self,
                            ).registry.realms@[j].s2@[k].0 != target)
                        &&& forall|k: usize|
                            self.registry.realms@[j].s2@.contains_key(k) ==> #[trigger] (
                            self.registry.realms@[j].s2@[k]) == old(self).registry.realms@[j].s2@[k]
                    },
                self.granules@ == old(self).granules@.insert(target, GranuleState::Delegated),
                self.mm@ == old(self).mm@.remove(target),
                self.fw@ == old(self).fw@,
                self.mem@ == old(self).mem@,
                self.current == old(self).current,
                self.registry.next_id == old(self).registry.next_id,
                self.mem.wf(),
                self.granules.wf(),
                self.granules@.dom() == self.fw@,
            decreases n - i,
        {
            let realm = &mut self.registry.realms[i];
            realm.s2.unmap_pa(target);
            i = i + 1;
        }
        SUCCESS
    }

    /// Install the stage-2 translation `ipa -> ns_pa` for realm `rid`, with
    /// the non-secure protection bit set.
    pub fn rtt_map_unprotected(&mut self, rid: usize, ipa: usize, _level: usize, ns_pa: usize) -> (r: usize)
        requires
            old(self).wf(),
        ensures
            final(self).wf(),
            rtt_map_unprotected_post(*old(self), *final(self), r, rid, ipa, ns_pa),
    {
        if ipa % GRANULE_SIZE != 0 || ns_pa % GRANULE_SIZE != 0 || ipa > usize::MAX - GRANULE_SIZE
            || ns_pa > usize::MAX - GRANULE_SIZE {
            return ERROR_INPUT;
        }
        let i = match self.registry.index_of(rid) {
            Some(i) => i,
            None => {
                return ERROR_INPUT;
            },
        };
        proof {
            lemma_realm_at(self.registry.realms@, i as int, rid);
        }
        let mut prot = MapProt::new(0);
        prot.set_bit(MAP_PROT_NS_PAS);
        proof {
            assert(0usize | 1usize == 1usize) by (bit_vector);
        }
        let realm = &mut self.registry.realms[i];
        let res = realm.s2.map(ipa, ns_pa, GRANULE_SIZE, prot.get());
        match res {
            Ok(_) => {
                proof {
                    let pres2 = spec_realm_of(old(self).registry.realms@, rid).s2@;
                    assert(self.registry.realms@[i as int].s2@ =~= pres2.insert(
                        ipa,
                        (ns_pa, MAP_PROT_NS_PAS),
                    ));
                    assert(self.registry.wf());
                }
                SUCCESS
            },
            Err(_) => {
                proof {
                    assert(false);
                }
                ERROR_INPUT
            },
        }
    }

    /// Stub: recognize the command and answer success; the range walk belongs
    /// to a later revision.
    pub fn rtt_init_ripas(&self) -> (r: usize)
        ensures
            r == SUCCESS,
    {
        SUCCESS
    }

    /// Stub: recognize the command and answer success; the entry read belongs
    /// to a later revision.
    pub fn rtt_read_entry(&self) -> (r: usize)
        ensures
            r == SUCCESS,
    {
        SUCCESS
    }

    /// Route one command to its handler and build the reply vector, status
    /// word first. An unknown code falls through to the default reply.
    pub fn dispatch(&mut self, code: usize, args: [usize; 4]) -> (ret: [usize; 4])
        requires
            old(self).wf(),
        ensures
            final(self).wf(),
            ret[1] == 0 || code == CMD_VERSION,
            ret[2] == 0 && ret[3] == 0,
            code == CMD_VERSION ==> ret[0] == SUCCESS && ret[1] == ABI_VERSION && monitor_unchanged(
                *old(self),
                *final(self),
            ),
            code == CMD_GRANULE_DELEGATE ==> delegate_post(*old(self), *final(self), ret[0], args[0]),
            code == CMD_GRANULE_UNDELEGATE ==> undelegate_post(
                *old(self),
                *final(self),
                ret[0],
                args[0],
            ),
            code == CMD_VM_CREATE ==> vm_create_post(*old(self), *final(self), ret[0], args[0]),
            code == CMD_VM_SWITCH ==> vm_switch_post(
                *old(self),
                *final(self),
                ret[0],
                args[0],
                args[1],
            ),
            code == CMD_VM_RESUME ==> ret[0] == SUCCESS && monitor_unchanged(*old(self), *final(self)),
            code == CMD_VM_DESTROY ==> vm_destroy_post(*old(self), *final(self), ret[0], args[0]),
            code == CMD_DATA_CREATE ==> data_create_post(
                *old(self),
                *final(self),
                ret[0],
                args[0],
                args[1],
                args[2],
                args[3],
            ),
            code == CMD_DATA_DESTROY ==> data_destroy_post(*old(self), *final(self), ret[0], args[0]),
            code == CMD_RTT_MAP_UNPROTECTED ==> rtt_map_unprotected_post(
                *old(self),
                *final(self),
                ret[0],
                args[0],
                args[1],
                args[3],
            ),
            code == CMD_RTT_INIT_RIPAS || code == CMD_RTT_READ_ENTRY ==> ret[0] == SUCCESS
                && monitor_unchanged(*old(self), *final(self)),
            !is_known_code(code) ==> ret[0] == RET_FAIL && monitor_unchanged(*old(self), *final(self)),
    {
        if code == CMD_VERSION {
            [SUCCESS, ABI_VERSION, 0, 0]
        } else if code == CMD_GRANULE_DELEGATE {
            let r = self.granule_delegate(args[0]);
            [r, 0, 0, 0]
        } else if code == CMD_GRANULE_UNDELEGATE {
            let r = self.granule_undelegate(args[0]);
            [r, 0, 0, 0]
        } else if code == CMD_VM_CREATE {
            let r = self.vm_create(args[0]);
            [r, 0, 0, 0]
        } else if code == CMD_VM_SWITCH {
            let r = self.vm_switch(args[0], args[1]);
            [r, 0, 0, 0]
        } else if code == CMD_VM_RESUME {
            let r = self.vm_resume();
            [r, 0, 0, 0]
        } else if code == CMD_VM_DESTROY {
            let r = self.vm_destroy(args[0]);
            [r, 0, 0, 0]
        } else if code == CMD_DATA_CREATE {
            let r = self.data_create(args[0], args[1], args[2], args[3]);
            [r, 0, 0, 0]
        } else if code == CMD_DATA_DESTROY {
            let r = self.data_destroy(args[0]);
            [r, 0, 0, 0]
        } else if code == CMD_RTT_MAP_UNPROTECTED {
            let r = self.rtt_map_unprotected(args[0], args[1], args[2], args[3]);
            [r, 0, 0, 0]
        } else if code == CMD_RTT_INIT_RIPAS {
            let r = self.rtt_init_ripas();
            [r, 0, 0, 0]
        } else if code == CMD_RTT_READ_ENTRY {
            let r = self.rtt_read_entry();
            [r, 0, 0, 0]
        } else {
            [RET_FAIL, 0, 0, 0]
        }
    }

    /// The VCPU current on this core, if any.
    pub fn current(&self) -> (c: Option<CurrentVcpu>)
        ensures
            c == self.current,
    {
        self.current
    }

    /// Detach the current VCPU from this core.
    pub fn from_current(&mut self)
        ensures
            final(self).current is None,
            final(self).granules@ == old(self).granules@ && final(self).fw@ == old(self).fw@
                && final(self).mm@ == old(self).mm@ && final(self).mem@ == old(self).mem@,
            final(self).registry == old(self).registry,
            old(self).wf() ==> final(self).wf(),
    {
        self.current = None;
    }

    /// Whether the current VCPU's realm is gone from the registry.
    pub fn current_vm_dead(&self) -> (r: bool)
        ensures
            r == (self.current is Some && !contains_id(
                self.registry.realms@,
                self.current->0.realm_id,
            )),
    {
        match self.current {
            Some(c) => self.registry.index_of(c.realm_id).is_none(),
            None => false,
        }
    }

    /// The idle hook: with no current VCPU keep waiting; with a dead one,
    /// detach it from this core; otherwise exit to the realm until the next
    /// trap. The world switch itself is the caller's.
    pub fn idle_step(&mut self) -> (a: IdleAction)
        requires
            old(self).wf(),
        ensures
            final(self).wf(),
            old(self).current is None ==> a == IdleAction::Wait && monitor_unchanged(
                *old(self),
                *final(self),
            ),
            old(self).current is Some && !contains_id(
                old(self).registry.realms@,
                old(self).current->0.realm_id,
            ) ==> a == IdleAction::Detached && final(self).current is None,
            old(self).current is Some && contains_id(
                old(self).registry.realms@,
                old(self).current->0.realm_id,
            ) ==> a == IdleAction::EnterRealm(
                old(self).current->0.realm_id,
                old(self).current->0.vcpu_id,
            ) && monitor_unchanged(*old(self), *final(self)),
            final(self).granules@ == old(self).granules@ && final(self).fw@ == old(self).fw@
                && final(self).mm@ == old(self).mm@ && final(self).mem@ == old(self).mem@,
            final(self).registry == old(self).registry,
    {
        match self.current {
            Some(c) => {
                if self.current_vm_dead() {
                    self.from_current();
                    IdleAction::Detached
                } else {
                    IdleAction::EnterRealm(c.realm_id, c.vcpu_id)
                }
            },
            None => IdleAction::Wait,
        }
    }
}

/// The command codes the dispatcher recognizes.
pub open spec fn is_known_code(code: usize) -> bool {
    code == CMD_VERSION || code == CMD_GRANULE_DELEGATE || code == CMD_GRANULE_UNDELEGATE || code
        == CMD_VM_CREATE || code == CMD_VM_SWITCH || code == CMD_VM_RESUME || code == CMD_VM_DESTROY
        || code == CMD_DATA_CREATE || code == CMD_DATA_DESTROY || code == CMD_RTT_INIT_RIPAS || code
        == CMD_RTT_READ_ENTRY || code == CMD_RTT_MAP_UNPROTECTED
}

} // verus!
