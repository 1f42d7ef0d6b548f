//! Chunks of a transcript: a stretch of the recording and the text heard in
//! it.
//!
//! A recording only grows, so a stretch of it, once transcribed, stays what
//! it was. A consumer that keeps the chunks it has, each beginning where the
//! one before ended, needs to transcribe only what lies behind the last.

use vstd::prelude::*;

verus! {

/// The samples from `from` up to, not including, `to`, and their text.
pub struct TranscriptChunk {
    from: usize,
    to: usize,
    text: String,
}

/// A chunk as a value.
pub struct ChunkView {
    pub from: nat,
    pub to: nat,
    pub text: Seq<char>,
}

impl View for TranscriptChunk {
    type V = ChunkView;

    closed spec fn view(&self) -> ChunkView {
        ChunkView { from: self.from as nat, to: self.to as nat, text: self.text@ }
    }
}

impl TranscriptChunk {
    /// A chunk's range does not end before it begins.
    #[verifier::type_invariant]
    spec fn ordered(self) -> bool {
        self.from <= self.to
    }

    /// The chunk of the samples `from..to` with the text `text`; `None` where
    /// `to` lies before `from`.
    pub fn new(from: usize, to: usize, text: String) -> (chunk: Option<Self>)
        ensures
            from > to ==> chunk is None,
            from <= to ==> chunk is Some && chunk->Some_0@ == (ChunkView {
                from: from as nat,
                to: to as nat,
                text: text@,
            }),
    {
        if from <= to {
            Some(TranscriptChunk { from, to, text })
        } else {
            None
        }
    }

    /// Index of the first sample of the chunk.
    pub fn start(&self) -> (from: usize)
        ensures
            from == self@.from,
            from <= self@.to,
    {
        proof {
            use_type_invariant(self);
        }
        self.from
    }

    /// Index behind the last sample of the chunk: where the next chunk
    /// begins.
    pub fn end(&self) -> (to: usize)
        ensures
            to == self@.to,
            to >= self@.from,
    {
        proof {
            use_type_invariant(self);
        }
        self.to
    }

    /// Number of samples in the chunk.
    pub fn sample_count(&self) -> (count: usize)
        ensures
            count == self@.to - self@.from,
    {
        proof {
            use_type_invariant(self);
        }
        self.to - self.from
    }

    /// The text heard in the chunk.
    pub fn text(&self) -> (text: &String)
        ensures
            text@ == self@.text,
    {
        &self.text
    }

    /// Whether the chunk begins exactly where `earlier` ended.
    pub fn follows(&self, earlier: &TranscriptChunk) -> (contiguous: bool)
        ensures
            contiguous == (self@.from == earlier@.to),
    {
        self.from == earlier.to
    }

    /// The chunk's samples out of `recording`; `None` where the recording is
    /// shorter than the chunk's end.
    pub fn samples_of<T: Copy>(&self, recording: &[T]) -> (samples: Option<Vec<T>>)
        ensures
            self@.to > recording@.len() ==> samples is None,
            self@.to <= recording@.len() ==> samples is Some && samples->Some_0@
                == recording@.subrange(self@.from as int, self@.to as int),
    {
        proof {
            use_type_invariant(self);
        }
        if self.to <= recording.len() {
            Some(crate::buffer::copy_range(recording, self.from, self.to))
        } else {
            None
        }
    }
}

/// Two chunks of which the second follows the first cover one stretch
/// without a gap and without a sample in both: the samples of the first and
/// then those of the second are the samples from the start of the first to
/// the end of the second.
pub proof fn lemma_contiguous_chunks_tile<T>(recording: Seq<T>, first: ChunkView, second: ChunkView)
    requires
        first.from <= first.to,
        second.from <= second.to,
        second.from == first.to,
        second.to <= recording.len(),
    ensures
        recording.subrange(first.from as int, first.to as int) + recording.subrange(
            second.from as int,
            second.to as int,
        ) == recording.subrange(first.from as int, second.to as int),
{
    assert(recording.subrange(first.from as int, first.to as int) + recording.subrange(
        second.from as int,
        second.to as int,
    ) =~= recording.subrange(first.from as int, second.to as int));
}

} // verus!
