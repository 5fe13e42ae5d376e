//! Scratch-directory lifecycle: an explicit registry, owned by one
//! synchronization run, that allocates fresh scratch handles and releases
//! them.  Releasing is safe for a handle that was never allocated or was
//! already released: it simply does nothing, mirroring a recursive delete of
//! a directory that no longer exists.

use vstd::prelude::*;

verus! {

/// Tracks the scratch directories allocated during one run.  Handles are
/// numbered; every live handle is below the allocation counter, so a fresh
/// allocation never collides with a live one.
pub struct ScratchRegistry {
    next: u64,
    live: Vec<u64>,
}

impl ScratchRegistry {
    /// All live handles were allocated before the counter's current value.
    pub closed spec fn wf(&self) -> bool {
        forall|i: int| 0 <= i < self.live@.len() ==> self.live@[i] < self.next
    }

    /// The live handles, in allocation order.
    pub closed spec fn live_handles(&self) -> Seq<u64> {
        self.live@
    }

    /// An empty registry with no live scratch directories.
    pub fn new() -> (r: ScratchRegistry)
        ensures
            r.wf(),
            r.live_handles() == Seq::<u64>::empty(),
            r.next_value() == 0,
    {
        let r = ScratchRegistry { next: 0, live: Vec::new() };
        proof {
            assert(r.live_handles() =~= Seq::<u64>::empty());
        }
        r
    }

    /// Whether a handle is currently live.
    pub fn is_live(&self, handle: u64) -> (r: bool)
        ensures
            r == self.live_handles().contains(handle),
    {
        let mut i: usize = 0;
        while i < self.live.len()
            invariant
                i <= self.live@.len(),
                forall|j: int| 0 <= j < i ==> self.live@[j] != handle,
            decreases self.live@.len() - i,
        {
            if self.live[i] == handle {
                return true;
            }
            i = i + 1;
        }
        proof {
            assert forall|j: int| 0 <= j < self.live_handles().len()
                implies self.live_handles()[j] != handle by {}
        }
        false
    }

    /// Allocates a scratch directory: the returned handle is fresh (not live
    /// before the call) and is live afterwards.
    pub fn create_scratch(&mut self) -> (handle: u64)
        requires
            old(self).wf(),
            old(self).next_value() < u64::MAX,
        ensures
            final(self).wf(),
            !old(self).live_handles().contains(handle),
            final(self).live_handles() == old(self).live_handles().push(handle),
            final(self).next_value() == old(self).next_value() + 1,
    {
        let handle = self.next;
        self.next = self.next + 1;
        self.live.push(handle);
        handle
    }

    /// The allocation counter (exposed only so callers can state that it has
    /// room left; it never decreases).
    pub closed spec fn next_value(&self) -> u64 {
        self.next
    }

    /// Releases a scratch directory.  A live handle stops being live (its
    /// first registration is removed); releasing a handle that is not live
    /// changes nothing and still succeeds.
    pub fn release_scratch(&mut self, handle: u64)
        requires
            old(self).wf(),
        ensures
            final(self).wf(),
            !old(self).live_handles().contains(handle) ==> final(self).live_handles() == old(
                self,
            ).live_handles(),
            old(self).live_handles().contains(handle) ==> exists|k: int|
                0 <= k < old(self).live_handles().len() && old(self).live_handles()[k] == handle
                    && final(self).live_handles() == old(self).live_handles().remove(k),
            final(self).next_value() == old(self).next_value(),
    {
        let mut i: usize = 0;
        while i < self.live.len()
            invariant
                i <= self.live@.len(),
                self.wf(),
                self.live@ == old(self).live@,
                self.next == old(self).next,
                forall|j: int| 0 <= j < i ==> self.live@[j] != handle,
            decreases self.live@.len() - i,
        {
            if self.live[i] == handle {
                self.live.remove(i);
                return ;
            }
            i = i + 1;
        }
        proof {
            assert forall|j: int| 0 <= j < self.live_handles().len()
                implies self.live_handles()[j] != handle by {}
        }
    }
}

} // verus!
