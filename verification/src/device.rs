//! Device-side bookkeeping: the ring of fences that bounds in-flight
//! submissions, and the size of quantized storage.

use vstd::prelude::*;

verus! {

/// Number of in-flight submissions allowed before a submission waits for
/// the GPU to catch up.
pub const FENCE_RING_SIZE: usize = 128;

/// The ring of fences that bounds in-flight submissions: submissions take
/// the slots in turn; a slot that an earlier submission used must be waited
/// on before it is reused.
#[derive(Debug)]
pub struct FenceRing {
    next: usize,
    in_use: Vec<bool>,
}

impl FenceRing {
    #[verifier::type_invariant]
    spec fn inv(self) -> bool {
        self.in_use@.len() == FENCE_RING_SIZE
    }

    /// The submission counter: the slot of the next submission is this
    /// counter modulo the ring size.
    pub closed spec fn next(self) -> usize {
        self.next
    }

    /// Whether slot `i` holds an earlier submission.
    pub closed spec fn in_use(self, i: int) -> bool {
        self.in_use@[i]
    }

    /// A ring with no submission.
    pub fn new() -> (r: Self)
        ensures
            r.next() == 0,
            forall|i: int| 0 <= i < FENCE_RING_SIZE ==> !#[trigger] r.in_use(i),
    {
        let mut in_use: Vec<bool> = Vec::new();
        let mut i: usize = 0;
        while i < FENCE_RING_SIZE
            invariant
                i <= FENCE_RING_SIZE,
                in_use@ == Seq::new(i as nat, |j: int| false),
            decreases FENCE_RING_SIZE - i,
        {
            in_use.push(false);
            i = i + 1;
            proof {
                assert(in_use@ =~= Seq::new(i as nat, |j: int| false));
            }
        }
        FenceRing { next: 0, in_use }
    }

    /// Takes the slot of the next submission: returns the slot and whether
    /// an earlier submission in it must be waited on first. The counter
    /// advances (wrapping around at the end of its range) and the slot is
    /// marked as holding a submission; the other slots keep their state.
    pub fn claim(&mut self) -> (r: (usize, bool))
        ensures
            r.0 == old(self).next() % FENCE_RING_SIZE,
            r.0 < FENCE_RING_SIZE,
            r.1 == old(self).in_use(r.0 as int),
            final(self).next() == (if old(self).next() == usize::MAX {
                0
            } else {
                old(self).next() + 1
            }),
            final(self).in_use(r.0 as int),
            forall|i: int| 0 <= i < FENCE_RING_SIZE && i != r.0 ==> #[trigger] final(self).in_use(i) == old(self).in_use(i),
    {
        proof {
            use_type_invariant(&*self);
        }
        let idx = self.next % FENCE_RING_SIZE;
        let must_wait = self.in_use[idx];
        let mut in_use: Vec<bool> = self.in_use.clone();
        in_use.set(idx, true);
        self.in_use = in_use;
        self.next = if self.next == usize::MAX {
            0
        } else {
            self.next + 1
        };
        (idx, must_wait)
    }
}

/// Bytes of quantized storage for `elem_count` elements stored in blocks
/// of `block_size` elements of `type_size` bytes each: a started block
/// takes a whole block.
pub fn quantized_storage_size(elem_count: usize, block_size: usize, type_size: usize) -> (r: usize)
    requires
        block_size > 0,
        (elem_count / block_size + (if elem_count % block_size == 0 { 0int } else { 1int })) * type_size <= usize::MAX,
    ensures
        r == (elem_count / block_size + (if elem_count % block_size == 0 { 0int } else { 1int })) * type_size,
{
    proof {
        let e = elem_count as int;
        let b = block_size as int;
        assert(e % b != 0 ==> e / b + 1 <= usize::MAX) by (nonlinear_arith)
            requires
                b > 0,
                0 <= e <= usize::MAX,
        ;
    }
    let blocks: usize = elem_count / block_size + if elem_count % block_size == 0 {
        0
    } else {
        1
    };
    blocks * type_size
}

} // verus!
