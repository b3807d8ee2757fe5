//! Monitor-wide laws: proofs that tie the command contracts together across
//! calls. Each is stated over the handler post-relations of `rmi` and the
//! registry, so it holds of every execution of the corresponding commands.

use crate::SUCCESS;
use crate::granule::GranuleState;
use crate::realm::Realm;
use crate::registry::Registry;
use crate::registry::contains_id;
use crate::registry::lemma_realm_at;
use crate::registry::spec_realm_of;
use crate::rmi::Monitor;
use crate::rmi::delegate_post;
use crate::rmi::rtt_map_unprotected_ok;
use crate::rmi::rtt_map_unprotected_post;
use crate::rmi::undelegate_post;
use crate::rmi::vm_create_post;
use vstd::prelude::*;

verus! {

/// At every quiescent point, the monitor's record of a granule agrees with
/// the firmware's security state: a granule is tracked exactly when the
/// firmware holds it marked realm-owned, and every tracked granule is in a
/// realm-owned state.
pub proof fn lemma_granule_states_agree(m: Monitor)
    requires
        m.wf(),
    ensures
        forall|pa: usize| #[trigger] m.granules@.contains_key(pa) <==> m.fw@.contains(pa),
        forall|pa: usize|
            #[trigger] m.granules@.contains_key(pa) ==> m.granules@[pa]
                != GranuleState::Undelegated,
{
}

/// Realm ids are issued strictly increasingly and never repeated: across two
/// consecutive creations the second id exceeds the first, and neither id was
/// ever carried by a live realm before its creation.
pub proof fn lemma_realm_ids_strictly_increase(
    pre: Monitor,
    mid: Monitor,
    post: Monitor,
    r1: usize,
    r2: usize,
    n1: usize,
    n2: usize,
)
    requires
        pre.registry.next_id < usize::MAX,
        mid.registry.next_id < usize::MAX,
        vm_create_post(pre, mid, r1, n1),
        vm_create_post(mid, post, r2, n2),
    ensures
        r2 == r1 + 1,
        !contains_id(pre.registry.realms@, r1),
        !contains_id(mid.registry.realms@, r2),
{
}

/// While a realm is registered, every one of its VCPUs points back at it: the
/// back-reference id resolves through the registry to that very realm.
pub proof fn lemma_vcpu_backrefs_resolve(reg: Registry, i: int)
    requires
        reg.wf(),
        0 <= i < reg.realms@.len(),
    ensures
        forall|k: int|
            0 <= k < reg.realms@[i].vcpus@.len() ==> (#[trigger] reg.realms@[i].vcpus@[k]).owner
                == reg.realms@[i].id,
        contains_id(reg.realms@, reg.realms@[i].id),
        spec_realm_of(reg.realms@, reg.realms@[i].id) == reg.realms@[i],
{
    assert(reg.realms@[i].wf());
    lemma_realm_at(reg.realms@, i, reg.realms@[i].id);
}

/// Round trip: a successful delegation of `pa` followed by an undelegation of
/// `pa` succeeds and leaves the granule table and the firmware exactly as
/// they were, with no entry for `pa`.
pub proof fn lemma_delegate_undelegate_round_trip(
    pre: Monitor,
    mid: Monitor,
    post: Monitor,
    r1: usize,
    r2: usize,
    pa: usize,
)
    requires
        pre.wf(),
        delegate_post(pre, mid, r1, pa),
        r1 == SUCCESS,
        undelegate_post(mid, post, r2, pa),
    ensures
        r2 == SUCCESS,
        !post.granules@.contains_key(pa),
        post.granules@ == pre.granules@,
        post.fw@ == pre.fw@,
{
    assert(!pre.fw@.contains(pa));
    assert(!pre.granules@.contains_key(pa));
    assert(mid.granules@ == pre.granules@.insert(pa, GranuleState::Delegated));
    assert(post.granules@ =~= pre.granules@);
    assert(post.fw@ =~= pre.fw@);
}

/// Two realms observably alike: same identity, lifecycle state, VCPUs and
/// stage-2 mapping.
pub open spec fn realm_obs_eq(a: Realm, b: Realm) -> bool {
    &&& a.id == b.id
    &&& a.state == b.state
    &&& a.vcpus == b.vcpus
    &&& a.s2@ == b.s2@
}

/// Two monitor states observably alike: every view a caller can reach agrees.
pub open spec fn monitor_obs_eq(a: Monitor, b: Monitor) -> bool {
    &&& a.granules@ == b.granules@
    &&& a.fw@ == b.fw@
    &&& a.mm@ == b.mm@
    &&& a.mem@ == b.mem@
    &&& a.current == b.current
    &&& a.registry.next_id == b.registry.next_id
    &&& a.registry.realms@.len() == b.registry.realms@.len()
    &&& forall|j: int|
        0 <= j < a.registry.realms@.len() ==> realm_obs_eq(
            #[trigger] a.registry.realms@[j],
            b.registry.realms@[j],
        )
}

/// Idempotence: repeating a map-unprotected with identical arguments succeeds
/// again and is a no-op, leaving every observable part of the monitor as the
/// first call left it.
pub proof fn lemma_rtt_map_unprotected_idempotent(
    pre: Monitor,
    mid: Monitor,
    post: Monitor,
    r1: usize,
    r2: usize,
    rid: usize,
    ipa: usize,
    ns_pa: usize,
)
    requires
        pre.wf(),
        mid.wf(),
        rtt_map_unprotected_ok(pre, rid, ipa, ns_pa),
        rtt_map_unprotected_post(pre, mid, r1, rid, ipa, ns_pa),
        rtt_map_unprotected_post(mid, post, r2, rid, ipa, ns_pa),
    ensures
        r1 == SUCCESS,
        r2 == SUCCESS,
        monitor_obs_eq(mid, post),
{
    let i = choose|i: int|
        0 <= i < pre.registry.realms@.len() && pre.registry.realms@[i].id == rid;
    assert(mid.registry.realms@[i].id == rid);
    assert(contains_id(mid.registry.realms@, rid)) by {
        assert(0 <= i < mid.registry.realms@.len() && mid.registry.realms@[i].id == rid);
    }
    assert(rtt_map_unprotected_ok(mid, rid, ipa, ns_pa));
    assert forall|j: int| 0 <= j < mid.registry.realms@.len() implies realm_obs_eq(
        #[trigger] mid.registry.realms@[j],
        post.registry.realms@[j],
    ) by {
        if mid.registry.realms@[j].id == rid {
            lemma_realm_at(mid.registry.realms@, j, rid);
            lemma_realm_at(pre.registry.realms@, j, rid);
            assert(post.registry.realms@[j].s2@ =~= mid.registry.realms@[j].s2@);
        } else {
            assert(post.registry.realms@[j] == mid.registry.realms@[j]);
        }
    }
}

} // verus!
