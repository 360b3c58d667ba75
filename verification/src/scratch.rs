//! The mono buffer that a block's input is copied into before rendering.
//!
//! All storage is obtained when the buffer is made. Refilling it overwrites
//! samples in place, so the buffer never grows while audio is processed.

use vstd::prelude::*;

verus! {

/// A buffer of fixed capacity holding the samples of the current block.
pub struct ScratchBuffer<T> {
    /// The storage: its length is the capacity and never changes.
    samples: Vec<T>,
    /// How many samples at the front of the storage belong to the block.
    filled: usize,
}

impl<T> View for ScratchBuffer<T> {
    type V = Seq<T>;

    /// The samples of the current block, in order.
    closed spec fn view(&self) -> Seq<T> {
        self.samples@.take(self.filled as int)
    }
}

impl<T> ScratchBuffer<T> {
    /// The current block lies within the storage.
    pub closed spec fn wf(&self) -> bool {
        self.filled <= self.samples.len()
    }

    /// The largest block, in samples, that the buffer can hold.
    pub closed spec fn limit(&self) -> nat {
        self.samples.len() as nat
    }

    /// A buffer that is in order holds no more samples than its limit.
    pub proof fn lemma_within_limit(self)
        requires
            self.wf(),
        ensures
            self@.len() <= self.limit(),
    {
    }
}

impl<T: Copy> ScratchBuffer<T> {
    /// A buffer for blocks of up to `max_block` samples, holding `max_block`
    /// copies of `silence`.
    pub fn new(max_block: usize, silence: T) -> (buffer: Self)
        ensures
            buffer.wf(),
            buffer.limit() == max_block,
            buffer@ == Seq::new(max_block as nat, |i: int| silence),
    {
        let mut samples: Vec<T> = Vec::with_capacity(max_block);
        let mut count: usize = 0;
        while count < max_block
            invariant
                count <= max_block,
                samples.len() == count,
                forall|i: int| 0 <= i < count ==> samples[i] == silence,
            decreases max_block - count,
        {
            samples.push(silence);
            count = count + 1;
        }
        let buffer = ScratchBuffer { samples, filled: max_block };
        assert(buffer@ =~= Seq::new(max_block as nat, |i: int| silence));
        buffer
    }

    /// The largest block, in samples, that the buffer can hold.
    pub fn capacity(&self) -> (capacity: usize)
        ensures
            capacity == self.limit(),
    {
        self.samples.len()
    }

    /// The number of samples of the current block.
    pub fn len(&self) -> (len: usize)
        requires
            self.wf(),
        ensures
            len == self@.len(),
            len <= self.limit(),
    {
        self.filled
    }

    /// Replaces the buffer's content by `input`, if `input` fits; says whether
    /// it did. A block that is too long leaves the buffer as it was. The
    /// capacity stays the same either way.
    pub fn refill(&mut self, input: &[T]) -> (fits: bool)
        requires
            old(self).wf(),
        ensures
            final(self).wf(),
            fits == (input@.len() <= old(self).limit()),
            fits ==> final(self)@ == input@,
            !fits ==> final(self)@ == old(self)@,
            final(self).limit() == old(self).limit(),
    {
        let count: usize = input.len();
        if count > self.samples.len() {
            return false;
        }
        self.filled = 0;
        let mut index: usize = 0;
        while index < count
            invariant
                index <= count,
                count == input@.len(),
                count <= self.samples.len(),
                self.samples.len() == old(self).samples.len(),
                self.filled == 0,
                forall|i: int| 0 <= i < index ==> self.samples[i] == input[i],
            decreases count - index,
        {
            self.samples.set(index, input[index]);
            index = index + 1;
        }
        self.filled = count;
        assert(self@ =~= input@);
        true
    }

    /// The samples of the current block.
    pub fn as_slice(&self) -> (block: &[T])
        requires
            self.wf(),
        ensures
            block@ == self@,
    {
        vstd::slice::slice_subrange(self.samples.as_slice(), 0, self.filled)
    }
}

} // verus!
