//! The realm registry: the monitor-wide table of live realms, keyed by realm
//! id, together with the next-id counter. Ids grow monotonically and are
//! never reused, even after removal.

use crate::RmmError;
use crate::realm::Realm;
use crate::realm::State;
use vstd::prelude::*;

verus! {

/// True when some live realm carries the id.
pub open spec fn contains_id(s: Seq<Realm>, id: usize) -> bool {
    exists|i: int| 0 <= i < s.len() && s[i].id == id
}

/// The registry of live realms and the id counter.
pub struct Registry {
    pub next_id: usize,
    pub realms: Vec<Realm>,
}

impl Registry {
    /// Every live id was issued (is below the counter), no id is carried
    /// twice, and every realm is internally well formed.
    pub open spec fn wf(&self) -> bool {
        &&& forall|i: int| 0 <= i < self.realms@.len() ==> (#[trigger] self.realms@[i]).id
            < self.next_id
        &&& forall|i: int, j: int|
            #![trigger self.realms@[i], self.realms@[j]]
            0 <= i < j < self.realms@.len() ==> self.realms@[i].id != self.realms@[j].id
        &&& forall|i: int| 0 <= i < self.realms@.len() ==> (#[trigger] self.realms@[i]).wf()
    }

    /// An empty registry; the first realm will get id 0.
    pub fn empty() -> (reg: Registry)
        ensures
            reg.wf(),
            reg.next_id == 0,
            reg.realms@ == Seq::<Realm>::empty(),
    {
        Registry { next_id: 0, realms: Vec::new() }
    }

    /// Create a realm with `num_vcpu` VCPUs under the next id. The id counter
    /// moves up by one, so the id can never be issued again.
    pub fn new(&mut self, num_vcpu: usize) -> (id: usize)
        requires
            old(self).wf(),
            old(self).next_id < usize::MAX,
        ensures
            final(self).wf(),
            id == old(self).next_id,
            final(self).next_id == old(self).next_id + 1,
            final(self).realms@.len() == old(self).realms@.len() + 1,
            forall|j: int|
                0 <= j < old(self).realms@.len() ==> final(self).realms@[j] == old(
                    self,
                ).realms@[j],
            final(self).realms@.last().id == id,
            final(self).realms@.last().state == State::New,
            final(self).realms@.last().vcpus@.len() == num_vcpu,
            final(self).realms@.last().s2@ == Map::<usize, (usize, usize)>::empty(),
            !contains_id(old(self).realms@, id),
    {
        let id = self.next_id;
        proof {
            lemma_issued_id_is_fresh(*self);
        }
        let realm = Realm::new(id, num_vcpu);
        self.realms.push(realm);
        self.next_id = self.next_id + 1;
        proof {
            assert forall|j: int| 0 <= j < self.realms@.len() - 1 implies self.realms@[j]
                == old(self).realms@[j] by {}
        }
        id
    }

    /// The position of the realm carrying `id`, if it is live.
    pub fn index_of(&self, id: usize) -> (r: Option<usize>)
        ensures
            match r {
                Some(i) => i < self.realms@.len() && self.realms@[i as int].id == id,
                None => !contains_id(self.realms@, id),
            },
    {
        let mut i: usize = 0;
        while i < self.realms.len()
            invariant
                i <= self.realms@.len(),
                forall|j: int| 0 <= j < i ==> (#[trigger] self.realms@[j]).id != id,
            decreases self.realms@.len() - i,
        {
            if self.realms[i].id == id {
                return Some(i);
            }
            i = i + 1;
        }
        None
    }

    /// Look up the live realm carrying `id`.
    pub fn get(&self, id: usize) -> (r: Option<&Realm>)
        ensures
            r is Some <==> contains_id(self.realms@, id),
            r is Some ==> r->0.id == id && exists|i: int|
                0 <= i < self.realms@.len() && self.realms@[i] == *r->0,
    {
        match self.index_of(id) {
            Some(i) => Some(&self.realms[i]),
            None => None,
        }
    }

    /// Drop the realm carrying `id` from the registry; later lookups of the
    /// id miss. Every other realm stays as it was, and the id counter does
    /// not move, so the dropped id is never issued again.
    pub fn remove(&mut self, id: usize) -> (r: Result<(), RmmError>)
        requires
            old(self).wf(),
        ensures
            final(self).wf(),
            final(self).next_id == old(self).next_id,
            r is Ok <==> contains_id(old(self).realms@, id),
            r is Err ==> r->Err_0 == RmmError::NotFound && final(self).realms@ == old(
                self,
            ).realms@,
            r is Ok ==> {
                &&& final(self).realms@.len() == old(self).realms@.len() - 1
                &&& !contains_id(final(self).realms@, id)
                &&& forall|id2: usize|
                    id2 != id ==> #[trigger] contains_id(final(self).realms@, id2) == contains_id(
                        old(self).realms@,
                        id2,
                    )
                &&& forall|j: int|
                    0 <= j < final(self).realms@.len() ==> exists|i: int|
                        0 <= i < old(self).realms@.len() && old(self).realms@[i]
                            == #[trigger] final(self).realms@[j]
            },
    {
        match self.index_of(id) {
            Some(i) => {
                let ghost pre = self.realms@;
                let _ = self.realms.remove(i);
                proof {
                    assert forall|j: int|
                        0 <= j < self.realms@.len() implies exists|i0: int|
                        0 <= i0 < pre.len() && pre[i0] == #[trigger] self.realms@[j] by {
                        if j < i {
                            assert(pre[j] == self.realms@[j]);
                        } else {
                            assert(pre[j + 1] == self.realms@[j]);
                        }
                    }
                    assert forall|id2: usize| id2 != id implies #[trigger] contains_id(
                        self.realms@,
                        id2,
                    ) == contains_id(pre, id2) by {
                        if contains_id(pre, id2) {
                            let i0 = choose|i0: int| 0 <= i0 < pre.len() && pre[i0].id == id2;
                            if i0 < i {
                                assert(self.realms@[i0].id == id2);
                            } else {
                                assert(self.realms@[i0 - 1].id == id2);
                            }
                        }
                        if contains_id(self.realms@, id2) {
                            let j0 = choose|j0: int|
                                0 <= j0 < self.realms@.len() && self.realms@[j0].id == id2;
                            if j0 < i {
                                assert(pre[j0].id == id2);
                            } else {
                                assert(pre[j0 + 1].id == id2);
                            }
                        }
                    }
                    assert(!contains_id(self.realms@, id)) by {
                        if contains_id(self.realms@, id) {
                            let j0 = choose|j0: int|
                                0 <= j0 < self.realms@.len() && self.realms@[j0].id == id;
                            if j0 < i {
                                assert(pre[j0].id == id && pre[i as int].id == id);
                            } else {
                                assert(pre[j0 + 1].id == id && pre[i as int].id == id);
                            }
                        }
                    };
                }
                Ok(())
            },
            None => Err(RmmError::NotFound),
        }
    }
}

/// The live realm carrying `id`; meaningful only when `contains_id` holds,
/// and then unique in a well-formed registry.
pub open spec fn spec_realm_of(s: Seq<Realm>, id: usize) -> Realm {
    s[choose|i: int| 0 <= i < s.len() && s[i].id == id]
}

/// In a registry without duplicate ids, the realm at a position is the realm
/// its id resolves to.
pub proof fn lemma_realm_at(s: Seq<Realm>, i: int, id: usize)
    requires
        forall|a: int, b: int| #![trigger s[a], s[b]] 0 <= a < b < s.len() ==> s[a].id != s[b].id,
        0 <= i < s.len(),
        s[i].id == id,
    ensures
        contains_id(s, id),
        spec_realm_of(s, id) == s[i],
{
    assert(contains_id(s, id)) by {
        assert(0 <= i < s.len() && s[i].id == id);
    }
    let j = choose|j: int| 0 <= j < s.len() && s[j].id == id;
    if j < i {
        assert(s[j].id != s[i].id);
    } else if i < j {
        assert(s[i].id != s[j].id);
    }
}

/// No live realm carries the id the registry will issue next: ids below the
/// counter are the only ones ever handed out.
pub proof fn lemma_issued_id_is_fresh(reg: Registry)
    requires
        reg.wf(),
    ensures
        !contains_id(reg.realms@, reg.next_id),
        forall|i: int| 0 <= i < reg.realms@.len() ==> (#[trigger] reg.realms@[i]).id < reg.next_id,
{
}

} // verus!
