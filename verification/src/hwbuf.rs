//! Reference-counted hardware frame buffers.
//!
//! On the zero-copy path, capture and encoder share one GPU-resident frame
//! buffer. Neither owns it exclusively: each holds a counted reference, and
//! the allocation is freed only when the last reference drops. This module
//! makes that protocol explicit: the pool records the live reference count
//! of every buffer, and a [`HwBufferRef`] is an owned, counted reference
//! that can only be minted by [`HwBufferPool::acquire`] (which increments)
//! and retired by [`HwBufferPool::release`] (which decrements). The raw
//! buffer identity is never manipulated behind the pool's back.

use vstd::prelude::*;

verus! {

/// An owned, counted reference to one hardware frame buffer.
///
/// Deliberately neither `Clone` nor `Copy`: a new reference comes only from
/// the pool, which counts it.
#[derive(Debug)]
pub struct HwBufferRef {
    id: usize,
}

impl HwBufferRef {
    /// The buffer this reference keeps alive.
    pub closed spec fn spec_id(&self) -> usize {
        self.id
    }

    #[verifier::when_used_as_spec(spec_id)]
    pub fn id(&self) -> (r: usize)
        ensures
            r == self.spec_id(),
    {
        self.id
    }
}

/// The registry of hardware frame buffers: `counts[i]` is the number of live
/// references to buffer `i`. A buffer stays valid while its count is positive.
#[derive(Debug)]
pub struct HwBufferPool {
    counts: Vec<u64>,
}

impl HwBufferPool {
    /// The number of live references to buffer `id`.
    pub closed spec fn ref_count(&self, id: usize) -> u64
        recommends
            id < self.spec_len(),
    {
        self.counts[id as int]
    }

    /// How many buffers this pool has ever allocated.
    pub closed spec fn spec_len(&self) -> nat {
        self.counts.len() as nat
    }

    /// A buffer is live (its memory must not be reclaimed) while at least
    /// one reference to it is held.
    pub open spec fn is_live(&self, id: usize) -> bool {
        id < self.spec_len() && self.ref_count(id) > 0
    }

    /// All other buffers' counts are untouched.
    pub open spec fn others_unchanged(&self, old_pool: &HwBufferPool, id: usize) -> bool {
        &&& self.spec_len() == old_pool.spec_len()
        &&& forall|j: usize| j < self.spec_len() && j != id ==> self.ref_count(j) == old_pool.ref_count(j)
    }

    pub fn new() -> (p: HwBufferPool)
        ensures
            p.spec_len() == 0,
    {
        HwBufferPool { counts: Vec::new() }
    }

    /// How many buffers this pool has ever allocated.
    pub fn len(&self) -> (n: usize)
        ensures
            n == self.spec_len(),
    {
        self.counts.len()
    }

    /// Reads the live reference count of buffer `id`.
    pub fn count(&self, id: usize) -> (c: u64)
        requires
            id < self.spec_len(),
        ensures
            c == self.ref_count(id),
    {
        self.counts[id]
    }

    /// Whether buffer `id` is still live.
    pub fn live(&self, id: usize) -> (b: bool)
        ensures
            b == self.is_live(id),
    {
        id < self.counts.len() && self.counts[id] > 0
    }

    /// Allocates a fresh buffer and hands back its first reference.
    pub fn allocate(&mut self) -> (r: HwBufferRef)
        ensures
            final(self).spec_len() == old(self).spec_len() + 1,
            r.id() == old(self).spec_len(),
            final(self).ref_count(r.id()) == 1,
            forall|j: usize| j < old(self).spec_len() ==> final(self).ref_count(j) == old(self).ref_count(j),
    {
        let id = self.counts.len();
        self.counts.push(1);
        HwBufferRef { id }
    }

    /// Takes one more counted reference to a live buffer, as the encoder
    /// does when it attaches the capture backend's frame buffer.
    pub fn acquire(&mut self, id: usize) -> (r: HwBufferRef)
        requires
            old(self).is_live(id),
            old(self).ref_count(id) < u64::MAX,
        ensures
            r.id() == id,
            final(self).ref_count(id) == old(self).ref_count(id) + 1,
            final(self).others_unchanged(old(self), id),
            final(self).is_live(id),
    {
        let c = self.counts[id];
        self.counts.set(id, c + 1);
        HwBufferRef { id }
    }

    /// Drops one counted reference. The buffer stays live for every other
    /// holder: only the last release lets the count reach zero.
    pub fn release(&mut self, r: HwBufferRef)
        requires
            old(self).is_live(r.id()),
        ensures
            final(self).ref_count(r.id()) == old(self).ref_count(r.id()) - 1,
            final(self).others_unchanged(old(self), r.id()),
    {
        let c = self.counts[r.id];
        self.counts.set(r.id, c - 1);
    }
}

/// Capture and encoder references are independent: once the encoder holds
/// its own counted reference (so the count is at least two), releasing the
/// capture backend's reference leaves the buffer live for the encoder.
pub proof fn lemma_encoder_ref_survives_capture_release(
    before: HwBufferPool,
    after: HwBufferPool,
    id: usize,
)
    requires
        before.is_live(id),
        before.ref_count(id) >= 2,
        after.ref_count(id) == before.ref_count(id) - 1,
        after.others_unchanged(&before, id),
    ensures
        after.is_live(id),
{
}

} // verus!
