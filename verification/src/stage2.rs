//! The per-realm stage-2 translator: the table that maps realm intermediate
//! physical addresses to host physical addresses under a protection profile.
//! Mapping and unmapping work on contiguous, granule-aligned ranges and are
//! idempotent over identical arguments.

use crate::RmmError;
use vstd::prelude::*;

verus! {

/// Protection bit: the mapping is backed by non-secure memory.
pub const MAP_PROT_NS_PAS: usize = 1;

/// A protection profile for a stage-2 mapping, a small bitfield.
#[derive(Clone, Copy, Debug, PartialEq, Eq, Structural)]
pub struct MapProt {
    bits: usize,
}

impl MapProt {
    /// The raw bits of the profile.
    pub closed spec fn spec_get(&self) -> usize {
        self.bits
    }

    /// A profile with exactly the given bits.
    pub fn new(bits: usize) -> (p: MapProt)
        ensures
            p.spec_get() == bits,
    {
        MapProt { bits }
    }

    /// Set every bit of `mask` in the profile.
    pub fn set_bit(&mut self, mask: usize)
        ensures
            final(self).spec_get() == old(self).spec_get() | mask,
    {
        self.bits = self.bits | mask;
    }

    /// The raw bits of the profile.
    pub fn get(&self) -> (bits: usize)
        ensures
            bits == self.spec_get(),
    {
        self.bits
    }

    /// Whether every bit of `mask` is set.
    pub fn is_set(&self, mask: usize) -> (r: bool)
        ensures
            r == (self.spec_get() & mask == mask),
    {
        self.bits & mask == mask
    }
}

/// One installed translation: `ipa` maps to `pa` under profile `prot`.
#[derive(Clone, Copy, Debug, PartialEq, Eq, Structural)]
pub struct S2Entry {
    pub ipa: usize,
    pub pa: usize,
    pub prot: usize,
}

/// The mapping a sequence of entries denotes; a later entry for the same
/// address wins, though a well-formed table never holds two.
pub open spec fn s2_map_of(s: Seq<S2Entry>) -> Map<usize, (usize, usize)>
    decreases s.len(),
{
    if s.len() == 0 {
        Map::empty()
    } else {
        s2_map_of(s.drop_last()).insert(s.last().ipa, (s.last().pa, s.last().prot))
    }
}

/// No two entries translate the same intermediate physical address.
pub open spec fn s2_entries_unique(s: Seq<S2Entry>) -> bool {
    forall|i: int, j: int| #![trigger s[i], s[j]] 0 <= i < j < s.len() ==> s[i].ipa != s[j].ipa
}

/// `k` lies in the aligned range of `size` bytes starting at `ipa`, on a
/// granule boundary relative to its start.
pub open spec fn spec_covered(ipa: usize, size: usize, k: usize) -> bool {
    ipa <= k < ipa + size && (k - ipa) % 4096 == 0
}

/// A range request is valid when aligned, granule-sized and free of address
/// wrap-around.
pub open spec fn spec_range_ok(ipa: usize, size: usize, pa: usize) -> bool {
    size % 4096 == 0 && ipa % 4096 == 0 && pa % 4096 == 0 && ipa + size <= usize::MAX && pa + size
        <= usize::MAX
}

proof fn lemma_s2_map_contains(s: Seq<S2Entry>)
    ensures
        forall|k: usize|
            #[trigger] s2_map_of(s).contains_key(k) <==> exists|i: int|
                0 <= i < s.len() && s[i].ipa == k,
    decreases s.len(),
{
    if s.len() > 0 {
        lemma_s2_map_contains(s.drop_last());
        assert forall|k: usize| #[trigger] s2_map_of(s).contains_key(k) implies exists|i: int|
            0 <= i < s.len() && s[i].ipa == k by {
            if k == s.last().ipa {
                assert(s[s.len() - 1].ipa == k);
            } else {
                assert(s2_map_of(s.drop_last()).contains_key(k));
                let i = choose|i: int| 0 <= i < s.drop_last().len() && s.drop_last()[i].ipa == k;
                assert(s.drop_last()[i] == s[i]);
                assert(s[i].ipa == k);
            }
        }
        assert forall|k: usize|
            exists|i: int| 0 <= i < s.len() && s[i].ipa == k implies #[trigger] s2_map_of(
            s,
        ).contains_key(k) by {
            let i = choose|i: int| 0 <= i < s.len() && s[i].ipa == k;
            if i < s.len() - 1 {
                assert(s.drop_last()[i].ipa == k);
                assert(s2_map_of(s.drop_last()).contains_key(k));
            }
        }
    }
}

proof fn lemma_s2_map_value(s: Seq<S2Entry>, i: int)
    requires
        s2_entries_unique(s),
        0 <= i < s.len(),
    ensures
        s2_map_of(s).contains_key(s[i].ipa),
        s2_map_of(s)[s[i].ipa] == (s[i].pa, s[i].prot),
    decreases s.len(),
{
    if i == s.len() - 1 {
        lemma_s2_map_contains(s);
    } else {
        lemma_s2_map_value(s.drop_last(), i);
        assert(s.drop_last()[i] == s[i]);
        assert(s[i].ipa != s.last().ipa);
    }
}

proof fn lemma_s2_map_snoc(s: Seq<S2Entry>, e: S2Entry)
    ensures
        s2_map_of(s.push(e)) == s2_map_of(s).insert(e.ipa, (e.pa, e.prot)),
{
    assert(s.push(e).drop_last() =~= s);
    assert(s.push(e).last() == e);
}

proof fn lemma_s2_map_update(s: Seq<S2Entry>, i: int, e: S2Entry)
    requires
        s2_entries_unique(s),
        0 <= i < s.len(),
        e.ipa == s[i].ipa,
    ensures
        s2_map_of(s.update(i, e)) =~= s2_map_of(s).insert(e.ipa, (e.pa, e.prot)),
    decreases s.len(),
{
    if i == s.len() - 1 {
        assert(s.update(i, e).drop_last() =~= s.drop_last());
        assert(s.update(i, e).last() == e);
    } else {
        lemma_s2_map_update(s.drop_last(), i, e);
        assert(s.update(i, e).drop_last() =~= s.drop_last().update(i, e));
        assert(s.update(i, e).last() == s.last());
        assert(s.last().ipa != e.ipa);
    }
}

/// The stage-2 translation table of one realm.
pub struct Stage2Table {
    realm_id: usize,
    entries: Vec<S2Entry>,
}

impl View for Stage2Table {
    type V = Map<usize, (usize, usize)>;

    closed spec fn view(&self) -> Map<usize, (usize, usize)> {
        s2_map_of(self.entries@)
    }
}

impl Stage2Table {
    /// Each address is translated by at most one entry.
    pub closed spec fn wf(&self) -> bool {
        s2_entries_unique(self.entries@)
    }

    /// The realm the table translates for.
    pub closed spec fn spec_realm_id(&self) -> usize {
        self.realm_id
    }

    /// The realm the table translates for.
    pub fn realm_id(&self) -> (id: usize)
        ensures
            id == self.spec_realm_id(),
    {
        self.realm_id
    }

    /// An empty table for the given realm.
    pub fn new(realm_id: usize) -> (t: Stage2Table)
        ensures
            t.spec_realm_id() == realm_id,
            t@ == Map::<usize, (usize, usize)>::empty(),
            t.wf(),
    {
        Stage2Table { realm_id, entries: Vec::new() }
    }

    fn find_ipa(&self, ipa: usize) -> (r: Option<usize>)
        ensures
            match r {
                Some(i) => i < self.entries@.len() && self.entries@[i as int].ipa == ipa,
                None => forall|i: int| 0 <= i < self.entries@.len() ==> self.entries@[i].ipa != ipa,
            },
    {
        let mut i: usize = 0;
        while i < self.entries.len()
            invariant
                i <= self.entries@.len(),
                forall|j: int| 0 <= j < i ==> self.entries@[j].ipa != ipa,
            decreases self.entries@.len() - i,
        {
            if self.entries[i].ipa == ipa {
                return Some(i);
            }
            i = i + 1;
        }
        None
    }

    /// The translation installed for `ipa`, as host address and protection
    /// bits, or `None` when the address is unmapped.
    pub fn lookup(&self, ipa: usize) -> (r: Option<(usize, usize)>)
        requires
            self.wf(),
        ensures
            match r {
                Some(v) => self@.contains_key(ipa) && self@[ipa] == v,
                None => !self@.contains_key(ipa),
            },
    {
        proof {
            lemma_s2_map_contains(self.entries@);
        }
        match self.find_ipa(ipa) {
            Some(i) => {
                proof {
                    lemma_s2_map_value(self.entries@, i as int);
                }
                let e = self.entries[i];
                Some((e.pa, e.prot))
            },
            None => None,
        }
    }

    fn insert_entry(&mut self, ipa: usize, pa: usize, prot: usize)
        requires
            old(self).wf(),
        ensures
            final(self).wf(),
            final(self)@ == old(self)@.insert(ipa, (pa, prot)),
            final(self).spec_realm_id() == old(self).spec_realm_id(),
    {
        let e = S2Entry { ipa, pa, prot };
        match self.find_ipa(ipa) {
            Some(i) => {
                proof {
                    lemma_s2_map_update(self.entries@, i as int, e);
                }
                let ghost pre = self.entries@;
                self.entries[i] = e;
                proof {
                    assert(self.entries@ =~= pre.update(i as int, e));
                }
            },
            None => {
                proof {
                    lemma_s2_map_snoc(self.entries@, e);
                }
                self.entries.push(e);
            },
        }
    }

    /// Install the translation of a contiguous range: each granule of the
    /// `size` bytes at `ipa` comes to translate to the granule at the same
    /// offset from `pa`, under `prot`; every other translation is untouched.
    /// A misaligned, non-granule-sized or wrapping range changes nothing.
    pub fn map(&mut self, ipa: usize, pa: usize, size: usize, prot: usize) -> (r: Result<
        (),
        RmmError,
    >)
        requires
            old(self).wf(),
        ensures
            final(self).wf(),
            final(self).spec_realm_id() == old(self).spec_realm_id(),
            r is Ok <==> spec_range_ok(ipa, size, pa),
            r is Err ==> r->Err_0 == RmmError::InputError && *final(self) == *old(self),
            r is Ok ==> forall|k: usize|
                spec_covered(ipa, size, k) ==> #[trigger] final(self)@.contains_key(k)
                    && final(self)@[k].0 == pa + (k - ipa) && final(self)@[k].1 == prot,
            r is Ok ==> forall|k: usize|
                !spec_covered(ipa, size, k) ==> #[trigger] final(self)@.contains_key(k)
                    == old(self)@.contains_key(k),
            r is Ok ==> forall|k: usize|
                (!spec_covered(ipa, size, k) && old(self)@.contains_key(k))
                    ==> #[trigger] (final(self)@[k]) == old(self)@[k],
    {
        if !(size % crate::GRANULE_SIZE == 0 && ipa % crate::GRANULE_SIZE == 0
            && pa % crate::GRANULE_SIZE == 0 && size <= usize::MAX - ipa
            && size <= usize::MAX - pa) {
            return Err(RmmError::InputError);
        }
        let ghost orig = self@;
        let mut off: usize = 0;
        while off < size
            invariant
                self.wf(),
                self.spec_realm_id() == old(self).spec_realm_id(),
                off <= size,
                off % 4096 == 0,
                size % 4096 == 0,
                ipa + size <= usize::MAX,
                pa + size <= usize::MAX,
                forall|k: usize|
                    spec_covered(ipa, off, k) ==> #[trigger] self@.contains_key(k)
                        && self@[k].0 == pa + (k - ipa) && self@[k].1 == prot,
                forall|k: usize|
                    !spec_covered(ipa, off, k) ==> #[trigger] self@.contains_key(k)
                        == orig.contains_key(k),
                forall|k: usize|
                    !spec_covered(ipa, off, k) && orig.contains_key(k) ==> #[trigger] self@[k]
                        == orig[k],
            decreases size - off,
        {
            proof {
                assert((size - off) % 4096 == 0) by {
                    assert(size % 4096 == 0 && off % 4096 == 0);
                };
                assert(size - off >= 4096);
            }
            self.insert_entry(ipa + off, pa + off, prot);
            off = off + 4096;
        }
        Ok(())
    }

    /// Remove the translation of a contiguous range: afterwards no granule of
    /// the `size` bytes at `ipa` is translated, and every other translation is
    /// untouched. A misaligned, non-granule-sized or wrapping range changes
    /// nothing.
    pub fn unmap(&mut self, ipa: usize, size: usize) -> (r: Result<(), RmmError>)
        requires
            old(self).wf(),
        ensures
            final(self).wf(),
            final(self).spec_realm_id() == old(self).spec_realm_id(),
            r is Ok <==> spec_range_ok(ipa, size, ipa),
            r is Err ==> r->Err_0 == RmmError::InputError && final(self)@ == old(self)@,
            r is Ok ==> forall|k: usize|
                #[trigger] final(self)@.contains_key(k) <==> (old(self)@.contains_key(k)
                    && !spec_covered(ipa, size, k)),
            r is Ok ==> forall|k: usize|
                final(self)@.contains_key(k) ==> #[trigger] final(self)@[k] == old(self)@[k],
    {
        if !(size % crate::GRANULE_SIZE == 0 && ipa % crate::GRANULE_SIZE == 0
            && size <= usize::MAX - ipa) {
            return Err(RmmError::InputError);
        }
        let kept = self.retain_entries(ipa, size, true, 0);
        self.entries = kept;
        Ok(())
    }

    /// Drop every translation whose host address is `pa`: the eviction done
    /// when a data granule leaves a realm.
    pub fn unmap_pa(&mut self, pa: usize)
        requires
            old(self).wf(),
        ensures
            final(self).wf(),
            final(self).spec_realm_id() == old(self).spec_realm_id(),
            forall|k: usize|
                #[trigger] final(self)@.contains_key(k) <==> (old(self)@.contains_key(k)
                    && old(self)@[k].0 != pa),
            forall|k: usize|
                final(self)@.contains_key(k) ==> #[trigger] final(self)@[k] == old(self)@[k],
    {
        let kept = self.retain_entries(0, 0, false, pa);
        self.entries = kept;
    }

    /// Rebuild the entry list, dropping the entries a removal selects: those
    /// covered by the range when `by_range` is set, those translating to
    /// `target_pa` otherwise.
    fn retain_entries(&self, ipa: usize, size: usize, by_range: bool, target_pa: usize) -> (kept:
        Vec<S2Entry>)
        requires
            self.wf(),
            by_range ==> ipa + size <= usize::MAX,
        ensures
            s2_entries_unique(kept@),
            forall|k: usize|
                #[trigger] s2_map_of(kept@).contains_key(k) <==> (self@.contains_key(k) && !(
                if by_range {
                    spec_covered(ipa, size, k)
                } else {
                    self@[k].0 == target_pa
                })),
            forall|k: usize|
                s2_map_of(kept@).contains_key(k) ==> #[trigger] s2_map_of(kept@)[k] == self@[k],
    {
        proof {
            lemma_s2_map_contains(self.entries@);
        }
        let mut kept: Vec<S2Entry> = Vec::new();
        let mut i: usize = 0;
        while i < self.entries.len()
            invariant
                self.wf(),
                by_range ==> ipa + size <= usize::MAX,
                i <= self.entries@.len(),
                s2_entries_unique(kept@),
                forall|k: usize|
                    #[trigger] s2_map_of(kept@).contains_key(k) <==> (s2_map_of(
                        self.entries@.take(i as int),
                    ).contains_key(k) && !(if by_range {
                        spec_covered(ipa, size, k)
                    } else {
                        self@[k].0 == target_pa
                    })),
                forall|k: usize|
                    s2_map_of(kept@).contains_key(k) ==> #[trigger] s2_map_of(kept@)[k]
                        == s2_map_of(self.entries@.take(i as int))[k],
                forall|k: usize|
                    #[trigger] s2_map_of(self.entries@.take(i as int)).contains_key(k)
                        ==> self@.contains_key(k) && s2_map_of(self.entries@.take(i as int))[k]
                        == self@[k],
            decreases self.entries@.len() - i,
        {
            let e = self.entries[i];
            let drop_it = if by_range {
                e.ipa >= ipa && (e.ipa - ipa) < size && (e.ipa - ipa) % crate::GRANULE_SIZE == 0
            } else {
                e.pa == target_pa
            };
            proof {
                let prefix = self.entries@.take(i as int);
                lemma_s2_map_snoc(prefix, e);
                assert(self.entries@.take(i as int + 1) =~= prefix.push(e));
                lemma_s2_map_contains(prefix);
                lemma_s2_map_contains(kept@);
                lemma_s2_map_value(self.entries@, i as int);
                assert(forall|j: int| 0 <= j < i ==> prefix[j] == self.entries@[j]);
                // The entry's own address is new to the prefix: entries are unique.
                assert(!s2_map_of(prefix).contains_key(e.ipa)) by {
                    if s2_map_of(prefix).contains_key(e.ipa) {
                        let j = choose|j: int| 0 <= j < prefix.len() && prefix[j].ipa == e.ipa;
                        assert(self.entries@[j].ipa == self.entries@[i as int].ipa);
                    }
                };
                assert(!s2_map_of(kept@).contains_key(e.ipa));
            }
            if !drop_it {
                proof {
                    lemma_s2_map_snoc(kept@, e);
                    assert forall|j: int| 0 <= j < kept@.len() implies kept@[j].ipa != e.ipa by {
                        assert(exists|j0: int|
                            0 <= j0 < kept@.len() && kept@[j0].ipa == kept@[j].ipa);
                        assert(s2_map_of(kept@).contains_key(kept@[j].ipa));
                    }
                    assert(s2_entries_unique(kept@.push(e)));
                }
                kept.push(e);
            }
            i = i + 1;
        }
        proof {
            assert(self.entries@.take(self.entries@.len() as int) =~= self.entries@);
        }
        kept
    }
}

} // verus!
