//! Logical GPU handles.  Every resource draws its handle from one registry,
//! which records creation order, so each handle has exactly one owner and
//! teardown can release the resources in reverse creation order.
use vstd::prelude::*;

verus! {

pub struct ResourceRegistry {
    /// The next handle to hand out; handles start at 1 so that 0 always
    /// means "no object".
    pub next: u32,
    /// The live handles, in creation order.
    pub created: Vec<u32>,
}

impl ResourceRegistry {
    /// Handles are nonzero, below `next`, and strictly increasing in
    /// creation order — so no handle is ever handed out twice.
    pub open spec fn wf(self) -> bool {
        &&& 1 <= self.next
        &&& forall|i: int|
            0 <= i < self.created@.len() ==> 0 < #[trigger] self.created@[i] < self.next
        &&& forall|i: int, j: int|
            0 <= i < j < self.created@.len() ==> #[trigger] self.created@[i]
                < #[trigger] self.created@[j]
    }

    pub fn new() -> (r: ResourceRegistry)
        ensures
            r.wf(),
            r.created@.len() == 0,
    {
        ResourceRegistry { next: 1, created: Vec::new() }
    }

    /// Hands out a fresh nonzero handle and records it as the latest
    /// creation.
    pub fn create(&mut self) -> (h: u32)
        requires
            old(self).wf(),
            old(self).next < u32::MAX,
        ensures
            final(self).wf(),
            h == old(self).next,
            h != 0,
            final(self).created@ == old(self).created@.push(h),
            final(self).next == old(self).next + 1,
            forall|i: int| 0 <= i < old(self).created@.len() ==> old(self).created@[i] != h,
    {
        let h = self.next;
        self.next = self.next + 1;
        self.created.push(h);
        h
    }

    /// Releases every live handle exactly once, in reverse creation order:
    /// the returned sequence is the creation order reversed, and the
    /// registry keeps none of them.
    pub fn teardown(&mut self) -> (order: Vec<u32>)
        requires
            old(self).wf(),
        ensures
            final(self).wf(),
            final(self).created@.len() == 0,
            final(self).next == old(self).next,
            order@.len() == old(self).created@.len(),
            forall|i: int|
                0 <= i < order@.len() ==> #[trigger] order@[i] == old(self).created@[order@.len()
                    - 1 - i],
    {
        let n = self.created.len();
        let mut order: Vec<u32> = Vec::new();
        let mut k: usize = 0;
        while k < n
            invariant
                self == old(self),
                n == self.created@.len(),
                k <= n,
                order@.len() == k,
                forall|i: int|
                    0 <= i < k ==> #[trigger] order@[i] == self.created@[n - 1 - i],
            decreases n - k,
        {
            order.push(self.created[n - 1 - k]);
            k = k + 1;
        }
        self.created = Vec::new();
        order
    }
}

} // verus!
