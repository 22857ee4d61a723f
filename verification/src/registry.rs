//! The device's handle registries: owning containers indexed by stable small
//! integers. Insertion returns the index; bulk teardown clears every slot.

use vstd::prelude::*;

verus! {

/// How many slots of `s` are live.
pub open spec fn spec_count_live(s: Seq<bool>) -> nat
    decreases s.len(),
{
    if s.len() == 0 {
        0nat
    } else {
        spec_count_live(s.drop_last()) + (if s.last() {
            1nat
        } else {
            0nat
        })
    }
}

/// A registry of native handles: slot `i` is live while the handle created at
/// index `i` exists. Slots are never reused, so indices stay stable.
pub struct HandleRegistry {
    /// Liveness of each slot ever inserted.
    pub live: Vec<bool>,
}

impl HandleRegistry {
    /// An empty registry.
    pub fn new() -> (r: HandleRegistry)
        ensures
            r.live@.len() == 0,
    {
        HandleRegistry { live: Vec::new() }
    }

    /// Registers a new handle; its slot index is returned and stays stable.
    pub fn insert(&mut self) -> (idx: usize)
        ensures
            idx == old(self).live@.len(),
            final(self).live@ == old(self).live@.push(true),
    {
        let idx = self.live.len();
        self.live.push(true);
        idx
    }

    /// Marks the handle at `idx` destroyed.
    pub fn remove(&mut self, idx: usize)
        requires
            idx < old(self).live@.len(),
        ensures
            final(self).live@ == old(self).live@.update(idx as int, false),
    {
        self.live.set(idx, false);
    }

    /// Whether the slot at `idx` holds a live handle.
    pub fn is_live(&self, idx: usize) -> (r: bool)
        ensures
            r == (idx < self.live@.len() && self.live@[idx as int]),
    {
        idx < self.live.len() && self.live[idx]
    }

    /// How many handles are live.
    pub fn count(&self) -> (r: usize)
        ensures
            r == spec_count_live(self.live@),
    {
        let mut c: usize = 0;
        let n = self.live.len();
        let mut i: usize = 0;
        while i < n
            invariant
                n == self.live@.len(),
                i <= n,
                c <= i,
                c == spec_count_live(self.live@.subrange(0, i as int)),
            decreases n - i,
        {
            proof {
                assert(self.live@.subrange(0, i + 1 as int).drop_last() =~= self.live@.subrange(
                    0,
                    i as int,
                ));
            }
            if self.live[i] {
                c = c + 1;
            }
            i = i + 1;
        }
        proof {
            assert(self.live@.subrange(0, n as int) =~= self.live@);
        }
        c
    }

    /// Destroys every live handle: bulk teardown.
    pub fn clear(&mut self)
        ensures
            final(self).live@.len() == old(self).live@.len(),
            forall|i: int| 0 <= i < final(self).live@.len() ==> !final(self).live@[i],
            spec_count_live(final(self).live@) == 0,
    {
        let n = self.live.len();
        let mut i: usize = 0;
        while i < n
            invariant
                n == self.live@.len(),
                i <= n,
                forall|k: int| 0 <= k < i ==> !self.live@[k],
            decreases n - i,
        {
            self.live.set(i, false);
            i = i + 1;
        }
        proof {
            lemma_count_live_all_false(self.live@);
        }
    }
}

/// Inserting a handle and then destroying it leaves the live count as it was.
pub proof fn lemma_count_insert_then_remove(s: Seq<bool>)
    ensures
        spec_count_live(s.push(true).update(s.len() as int, false)) == spec_count_live(s),
{
    assert(s.push(true).update(s.len() as int, false) =~= s.push(false));
    assert(s.push(false).drop_last() =~= s);
}

/// A registry with no live slot counts zero.
proof fn lemma_count_live_all_false(s: Seq<bool>)
    requires
        forall|i: int| 0 <= i < s.len() ==> !s[i],
    ensures
        spec_count_live(s) == 0,
    decreases s.len(),
{
    if s.len() > 0 {
        lemma_count_live_all_false(s.drop_last());
    }
}

} // verus!
