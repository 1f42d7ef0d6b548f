//! When a recording is worth a transcription.
//!
//! A recording is transcribed twice over: while it goes on, for a preview,
//! and when it has stopped, for the text. Both passes are skipped where there
//! is nothing to hear, and both need a model.

use vstd::prelude::*;

verus! {

/// Fewest samples worth a preview: half a second at the recognizer's rate.
pub const MIN_PARTIAL_SAMPLES: usize = 8000;

/// What to do about a transcription pass.
#[derive(Clone, Copy, Debug, PartialEq, Eq)]
pub enum Pass {
    /// Do not transcribe; the text is empty.
    Skip,
    /// Do not transcribe; report that no model is loaded.
    Refuse,
    /// Transcribe.
    Run,
}

/// The pass over a stopped recording of `sample_count` samples.
pub open spec fn final_pass(sample_count: nat, model_loaded: bool) -> Pass {
    if sample_count == 0 {
        Pass::Skip
    } else if !model_loaded {
        Pass::Refuse
    } else {
        Pass::Run
    }
}

/// The pass over the first `sample_count` samples of a recording that goes
/// on.
pub open spec fn partial_pass(sample_count: nat, model_loaded: bool) -> Pass {
    if sample_count < MIN_PARTIAL_SAMPLES {
        Pass::Skip
    } else if !model_loaded {
        Pass::Refuse
    } else {
        Pass::Run
    }
}

/// Decides the pass over a stopped recording: an empty recording has an
/// empty text, with or without a model; any other needs a model.
pub fn plan_final_pass(sample_count: usize, model_loaded: bool) -> (pass: Pass)
    ensures
        pass == final_pass(sample_count as nat, model_loaded),
{
    if sample_count == 0 {
        Pass::Skip
    } else if !model_loaded {
        Pass::Refuse
    } else {
        Pass::Run
    }
}

/// Decides the pass over a recording that goes on: below the minimum there is
/// no preview yet; from it on, a preview needs a model.
pub fn plan_partial_pass(sample_count: usize, model_loaded: bool) -> (pass: Pass)
    ensures
        pass == partial_pass(sample_count as nat, model_loaded),
{
    if sample_count < MIN_PARTIAL_SAMPLES {
        Pass::Skip
    } else if !model_loaded {
        Pass::Refuse
    } else {
        Pass::Run
    }
}

/// A preview that runs, runs on a recording whose final pass would run too:
/// nothing is previewed that would not be transcribed in the end.
pub proof fn lemma_partial_implies_final(sample_count: nat, model_loaded: bool)
    ensures
        partial_pass(sample_count, model_loaded) == Pass::Run ==> final_pass(
            sample_count,
            model_loaded,
        ) == Pass::Run,
{
}

} // verus!
