//! The sample buffer: an append-only store of captured mono samples.
//!
//! The buffer is the record of "what has been captured so far". Its model is
//! the sequence of samples in capture order. Appending extends the sequence
//! at its tail and leaves every earlier sample in place, so a reader that
//! remembers an offset can always come back for the samples behind it.
//!
//! The sample type is a parameter: the buffer stores and copies samples and
//! never computes with them.

use vstd::prelude::*;

verus! {

/// Copies `source[from..to]` into a new vector.
pub fn copy_range<T: Copy>(source: &[T], from: usize, to: usize) -> (out: Vec<T>)
    requires
        from <= to <= source@.len(),
    ensures
        out@ == source@.subrange(from as int, to as int),
{
    let mut out: Vec<T> = Vec::new();
    let mut i: usize = from;
    while i < to
        invariant
            from <= i <= to <= source@.len(),
            out@ == source@.subrange(from as int, i as int),
        decreases to - i,
    {
        out.push(source[i]);
        i += 1;
        assert(out@ =~= source@.subrange(from as int, i as int));
    }
    out
}

/// Ordered store of captured samples; insertion order is capture order.
pub struct SampleBuffer<T> {
    samples: Vec<T>,
}

impl<T> View for SampleBuffer<T> {
    type V = Seq<T>;

    closed spec fn view(&self) -> Seq<T> {
        self.samples@
    }
}

impl<T: Copy> SampleBuffer<T> {
    /// An empty buffer.
    pub fn new() -> (buffer: Self)
        ensures
            buffer@ == Seq::<T>::empty(),
    {
        SampleBuffer { samples: Vec::new() }
    }

    /// Adds `samples` at the tail, in order. Everything already stored keeps
    /// its position.
    pub fn append(&mut self, samples: &[T])
        ensures
            final(self)@ == old(self)@ + samples@,
    {
        let n: usize = samples.len();
        let mut i: usize = 0;
        while i < n
            invariant
                n == samples@.len(),
                i <= n,
                self@ == old(self)@ + samples@.subrange(0, i as int),
            decreases n - i,
        {
            self.samples.push(samples[i]);
            i += 1;
            assert(self@ =~= old(self)@ + samples@.subrange(0, i as int));
        }
        assert(samples@.subrange(0, n as int) =~= samples@);
    }

    /// Number of samples stored.
    pub fn length(&self) -> (n: usize)
        ensures
            n == self@.len(),
    {
        self.samples.len()
    }

    /// The samples at or after `offset`: the tail of the buffer that a reader
    /// who has already seen `offset` samples has not seen yet. An offset at or
    /// beyond the end gives an empty vector, never an error.
    pub fn snapshot_from(&self, offset: usize) -> (out: Vec<T>)
        ensures
            offset >= self@.len() ==> out@ == Seq::<T>::empty(),
            offset < self@.len() ==> out@ == self@.subrange(offset as int, self@.len() as int),
    {
        let n: usize = self.samples.len();
        if offset < n {
            copy_range(self.samples.as_slice(), offset, n)
        } else {
            Vec::new()
        }
    }

    /// A copy of everything stored.
    pub fn snapshot_all(&self) -> (out: Vec<T>)
        ensures
            out@ == self@,
    {
        let n: usize = self.samples.len();
        let out = copy_range(self.samples.as_slice(), 0, n);
        assert(self@.subrange(0, n as int) =~= self@);
        out
    }

    /// The last `window` samples, or the whole buffer where it holds fewer.
    pub fn tail(&self, window: usize) -> (out: &[T])
        ensures
            out@ == tail_of(self@, window as nat),
    {
        let n: usize = self.samples.len();
        let start: usize = if n > window {
            n - window
        } else {
            0
        };
        vstd::slice::slice_subrange(self.samples.as_slice(), start, n)
    }

    /// Hands out everything stored and leaves the buffer empty, in one step.
    pub fn take_and_clear(&mut self) -> (out: Vec<T>)
        ensures
            out@ == old(self)@,
            final(self)@ == Seq::<T>::empty(),
    {
        let mut out: Vec<T> = Vec::new();
        std::mem::swap(&mut self.samples, &mut out);
        out
    }

    /// Drops everything stored.
    pub fn clear(&mut self)
        ensures
            final(self)@ == Seq::<T>::empty(),
    {
        self.samples.clear();
    }
}

/// The last `window` elements of `s`, or all of `s` where it is shorter.
pub open spec fn tail_of<T>(s: Seq<T>, window: nat) -> Seq<T> {
    if s.len() > window {
        s.subrange(s.len() - window, s.len() as int)
    } else {
        s
    }
}

/// A reader's offset stays valid while the buffer grows: after an append,
/// the samples behind an offset are those that were behind it before,
/// followed by the new ones.
pub proof fn lemma_append_extends_tail<T>(stored: Seq<T>, added: Seq<T>, offset: int)
    requires
        0 <= offset <= stored.len(),
    ensures
        (stored + added).subrange(offset, (stored + added).len() as int) == stored.subrange(
            offset,
            stored.len() as int,
        ) + added,
        (stored + added).subrange(0, stored.len() as int) == stored,
        (stored + added).len() >= stored.len(),
{
    assert((stored + added).subrange(offset, (stored + added).len() as int) =~= stored.subrange(
        offset,
        stored.len() as int,
    ) + added);
    assert((stored + added).subrange(0, stored.len() as int) =~= stored);
}

} // verus!
