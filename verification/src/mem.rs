//! A model of the physical pages the monitor reads and writes. A page that
//! was never written reads as zeroes. The copy primitive is the only way a
//! handler moves page contents, and it works on whole, aligned granules.

use crate::GRANULE_SIZE;
use std::collections::HashMap;
use vstd::prelude::*;

verus! {

broadcast use vstd::std_specs::hash::group_hash_axioms;

/// The contents of the page at `pa`: its recorded bytes, or all zeroes when
/// nothing was ever written there.
pub open spec fn spec_page_at(m: Map<usize, Seq<u8>>, pa: usize) -> Seq<u8> {
    if m.contains_key(pa) {
        m[pa]
    } else {
        Seq::new(4096, |i: int| 0u8)
    }
}

/// Physical memory as the monitor sees it: the pages that have been written,
/// each one granule long.
pub struct PhysMemory {
    pages: HashMap<usize, Vec<u8>>,
}

impl View for PhysMemory {
    type V = Map<usize, Seq<u8>>;

    closed spec fn view(&self) -> Map<usize, Seq<u8>> {
        Map::new(
            |pa: usize| self.pages@.contains_key(pa),
            |pa: usize| self.pages@[pa]@,
        )
    }
}

impl PhysMemory {
    /// Every recorded page is exactly one granule of bytes.
    pub open spec fn wf(&self) -> bool {
        forall|pa: usize| #[trigger] self@.contains_key(pa) ==> self@[pa].len() == 4096
    }

    /// Memory in which nothing has been written.
    pub fn new() -> (m: PhysMemory)
        ensures
            m@ == Map::<usize, Seq<u8>>::empty(),
            m.wf(),
    {
        let m = PhysMemory { pages: HashMap::new() };
        proof {
            assert(m@ =~= Map::<usize, Seq<u8>>::empty());
        }
        m
    }

    /// Record `data` as the contents of the page at `pa`.
    pub fn write_page(&mut self, pa: usize, data: Vec<u8>)
        requires
            data@.len() == 4096,
        ensures
            final(self)@ == old(self)@.insert(pa, data@),
            old(self).wf() ==> final(self).wf(),
    {
        let ghost pre = self@;
        let ghost d = data@;
        let _ = self.pages.insert(pa, data);
        proof {
            assert(self@ =~= pre.insert(pa, d));
        }
    }

    /// Build a page with every byte set to `value` and record it at `pa`.
    pub fn fill_page(&mut self, pa: usize, value: u8)
        ensures
            final(self)@ == old(self)@.insert(pa, Seq::new(4096, |i: int| value)),
            old(self).wf() ==> final(self).wf(),
    {
        let mut data: Vec<u8> = Vec::new();
        let mut i: usize = 0;
        while i < GRANULE_SIZE
            invariant
                i <= 4096,
                data@ =~= Seq::new(i as nat, |j: int| value),
            decreases 4096 - i,
        {
            data.push(value);
            i = i + 1;
        }
        proof {
            assert(data@ =~= Seq::new(4096, |i: int| value));
        }
        self.write_page(pa, data);
    }

    /// Read one granule at `pa`: the recorded bytes, or zeroes when untracked.
    pub fn read_page(&self, pa: usize) -> (data: Vec<u8>)
        requires
            self.wf(),
        ensures
            data@ == spec_page_at(self@, pa),
            data@.len() == 4096,
    {
        match self.pages.get(&pa) {
            Some(src) => {
                assert(self@.contains_key(pa) && self@[pa] == src@);
                let mut out: Vec<u8> = Vec::new();
                let mut i: usize = 0;
                while i < src.len()
                    invariant
                        i <= src.len(),
                        out@ =~= src@.take(i as int),
                    decreases src.len() - i,
                {
                    out.push(src[i]);
                    i = i + 1;
                }
                proof {
                    assert(out@ =~= src@);
                }
                out
            },
            None => {
                assert(!self@.contains_key(pa));
                let mut out: Vec<u8> = Vec::new();
                let mut i: usize = 0;
                while i < GRANULE_SIZE
                    invariant
                        i <= 4096,
                        out@ =~= Seq::new(i as nat, |j: int| 0u8),
                    decreases 4096 - i,
                {
                    out.push(0u8);
                    i = i + 1;
                }
                proof {
                    assert(out@ =~= Seq::new(4096, |i: int| 0u8));
                }
                out
            },
        }
    }

    /// Copy one granule from `src` to `dst`: afterwards the page at `dst`
    /// holds exactly the bytes the page at `src` held before the call.
    pub fn copy_page(&mut self, src: usize, dst: usize)
        requires
            old(self).wf(),
        ensures
            final(self)@ == old(self)@.insert(dst, spec_page_at(old(self)@, src)),
            final(self).wf(),
    {
        let data = self.read_page(src);
        self.write_page(dst, data);
    }
}

} // verus!
