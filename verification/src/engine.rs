//! The transcription engine: at most one loaded acoustic model, and the
//! protocol of a transcription over it.
//!
//! The engine does not recognize speech. It holds the handle of the model
//! that does, decides whether a model may be loaded or used, fixes how the
//! recognizer is to decode, and turns what the recognizer produced into the
//! transcript. The recognizer itself is handed in by the caller: `open` loads
//! a model file, `infer` runs the model over samples. A contract here says
//! what the engine does with whatever they return.

use vstd::prelude::*;
use vstd::string::*;
use crate::text::{join, joined, trim, trimmed};

verus! {

/// Why a model was not loaded.
#[derive(Debug, PartialEq, Eq)]
pub enum ModelError {
    /// There is no file at the path; holds the path.
    ModelFileNotFound(String),
    /// The file could not be loaded as a model; holds the loader's reason.
    ModelLoadFailed(String),
}

/// Why there is no transcript.
#[derive(Debug, PartialEq, Eq)]
pub enum TranscribeError {
    /// No model is loaded.
    ModelNotLoaded,
    /// The recognizer failed; holds its message.
    InferenceFailed(String),
}

impl TranscribeError {
    /// The text of `message`.
    pub open spec fn message_text(&self) -> Seq<char> {
        match self {
            TranscribeError::ModelNotLoaded => "Model not loaded"@,
            TranscribeError::InferenceFailed(reason) => reason@,
        }
    }

    /// The error as a line of text; the recognizer's message is passed on as
    /// it is.
    pub fn message(&self) -> (text: String)
        ensures
            text@ == self.message_text(),
    {
        match self {
            TranscribeError::ModelNotLoaded => "Model not loaded".to_owned(),
            TranscribeError::InferenceFailed(reason) => reason.clone(),
        }
    }
}

/// How the recognizer is to decode.
#[derive(Debug, PartialEq, Eq)]
pub struct DecodeOptions {
    /// Candidates kept per step; one is greedy, single-best decoding.
    pub best_of: u32,
    /// The language to decode in; `None` lets the recognizer detect it.
    pub language: Option<String>,
    /// Whether special tokens appear in the text.
    pub print_special: bool,
    /// Whether progress is reported.
    pub print_progress: bool,
    /// Whether text is reported while it is decoded.
    pub print_realtime: bool,
    /// Whether timestamps appear in the text.
    pub print_timestamps: bool,
    /// Whether the text is translated to English.
    pub translate: bool,
    /// Whether the whole input is forced into one segment.
    pub single_segment: bool,
    /// Whether earlier text is kept out of the decoder's context.
    pub no_context: bool,
}

/// `DecodeOptions` with the language as text.
pub struct DecodeOptionsView {
    pub best_of: u32,
    pub language: Option<Seq<char>>,
    pub print_special: bool,
    pub print_progress: bool,
    pub print_realtime: bool,
    pub print_timestamps: bool,
    pub translate: bool,
    pub single_segment: bool,
    pub no_context: bool,
}

impl View for DecodeOptions {
    type V = DecodeOptionsView;

    open spec fn view(&self) -> DecodeOptionsView {
        DecodeOptionsView {
            best_of: self.best_of,
            language: match self.language {
                Some(code) => Some(code@),
                None => None,
            },
            print_special: self.print_special,
            print_progress: self.print_progress,
            print_realtime: self.print_realtime,
            print_timestamps: self.print_timestamps,
            translate: self.translate,
            single_segment: self.single_segment,
            no_context: self.no_context,
        }
    }
}

/// Greedy, single-best decoding in `language`: nothing but the text is
/// produced, nothing is translated, segments are left as the recognizer cuts
/// them, and no earlier text is used.
pub open spec fn greedy_options(language: Option<Seq<char>>) -> DecodeOptionsView {
    DecodeOptionsView {
        best_of: 1,
        language,
        print_special: false,
        print_progress: false,
        print_realtime: false,
        print_timestamps: false,
        translate: false,
        single_segment: false,
        no_context: true,
    }
}

/// The language of `language` as text.
pub open spec fn language_text(language: Option<&str>) -> Option<Seq<char>> {
    match language {
        Some(code) => Some(code@),
        None => None,
    }
}

impl DecodeOptions {
    /// The options of every transcription: greedy decoding, pinned to
    /// `language` where one is given and with detection where none is.
    pub fn greedy(language: Option<&str>) -> (options: DecodeOptions)
        ensures
            options@ == greedy_options(language_text(language)),
    {
        let language: Option<String> = match language {
            Some(code) => Some(code.to_owned()),
            None => None,
        };
        DecodeOptions {
            best_of: 1,
            language,
            print_special: false,
            print_progress: false,
            print_realtime: false,
            print_timestamps: false,
            translate: false,
            single_segment: false,
            no_context: true,
        }
    }
}

/// The transcript of `segments`: the segments in order with nothing put
/// between them, without the white space at the start and at the end.
pub open spec fn transcript_of(segments: Seq<Seq<char>>) -> Seq<char> {
    trimmed(joined(segments))
}

/// Builds the transcript from the segments that the recognizer produced.
pub fn assemble_transcript(segments: &Vec<String>) -> (text: String)
    ensures
        text@ == transcript_of(segments.deep_view()),
{
    let whole = join(segments);
    trim(whole.as_str())
}

/// `result` is what a transcription returns when the recognizer returned
/// `outcome`: the transcript of its segments, or its failure as it is.
pub open spec fn is_transcription(
    outcome: Result<Vec<String>, String>,
    result: Result<String, TranscribeError>,
) -> bool {
    match outcome {
        Ok(segments) => result is Ok && result->Ok_0@ == transcript_of(segments.deep_view()),
        Err(reason) => result == Err::<String, TranscribeError>(
            TranscribeError::InferenceFailed(reason),
        ),
    }
}

/// Turns what the recognizer returned into what a transcription returns.
pub fn finish_transcript(outcome: Result<Vec<String>, String>) -> (result: Result<
    String,
    TranscribeError,
>)
    ensures
        is_transcription(outcome, result),
{
    match outcome {
        Ok(segments) => Ok(assemble_transcript(&segments)),
        Err(reason) => Err(TranscribeError::InferenceFailed(reason)),
    }
}

/// A loaded model: its handle, and the path of the file it was loaded from.
pub struct LoadedModel<M> {
    pub context: M,
    pub path: Seq<char>,
}

/// One attempt to load a model: the path, whether a file was found there,
/// and what the loader returned for it.
pub struct LoadAttempt<M> {
    pub path: Seq<char>,
    pub found: bool,
    pub opened: Result<M, String>,
}

impl<M> LoadAttempt<M> {
    /// Whether the attempt loaded a model.
    pub open spec fn succeeded(self) -> bool {
        self.found && self.opened is Ok
    }
}

/// The engine's model after `attempt` on an engine whose model was `before`:
/// a loaded model takes the place of the one before; a missing file or a
/// failed load leaves what was there.
pub open spec fn after_load<M>(before: Option<LoadedModel<M>>, attempt: LoadAttempt<M>) -> Option<
    LoadedModel<M>,
> {
    if attempt.succeeded() {
        Some(LoadedModel { context: attempt.opened->Ok_0, path: attempt.path })
    } else {
        before
    }
}

/// The engine's model after `attempts`, in order.
pub open spec fn after_loads<M>(
    before: Option<LoadedModel<M>>,
    attempts: Seq<LoadAttempt<M>>,
) -> Option<LoadedModel<M>>
    decreases attempts.len(),
{
    if attempts.len() == 0 {
        before
    } else {
        after_load(after_loads(before, attempts.drop_last()), attempts.last())
    }
}

/// What `load_model` returns for the file at `path` when the file was `found`
/// and the loader returned `opened`.
pub open spec fn load_result<M>(path: String, found: bool, opened: Result<M, String>) -> Result<
    (),
    ModelError,
> {
    if !found {
        Err(ModelError::ModelFileNotFound(path))
    } else {
        match opened {
            Ok(_) => Ok(()),
            Err(reason) => Err(ModelError::ModelLoadFailed(reason)),
        }
    }
}

/// `result` and `after` are what a load of the file at `model_path` leaves
/// of an engine that was `before`: `probe` was asked whether the file exists;
/// where it said no, the result is `ModelFileNotFound` and nothing changed;
/// where it said yes, `open` was run on the path, and the result and the
/// engine follow from what it returned.
pub open spec fn is_load<M, P: FnOnce(&String) -> bool, O: FnOnce(&String) -> Result<M, String>>(
    probe: P,
    open: O,
    model_path: String,
    before: Option<LoadedModel<M>>,
    after: Option<LoadedModel<M>>,
    result: Result<(), ModelError>,
) -> bool {
    exists|found: bool|
        #![trigger call_ensures(probe, (&model_path,), found)]
        {
            &&& call_ensures(probe, (&model_path,), found)
            &&& !found ==> result == Err::<(), ModelError>(
                ModelError::ModelFileNotFound(model_path),
            ) && after == before
            &&& found ==> exists|opened: Result<M, String>|
                #![trigger call_ensures(open, (&model_path,), opened)]
                {
                    &&& call_ensures(open, (&model_path,), opened)
                    &&& result == load_result(model_path, true, opened)
                    &&& after == after_load(
                        before,
                        LoadAttempt { path: model_path@, found: true, opened },
                    )
                }
        }
}

/// An engine with at most one loaded model. `M` is the model's handle. The
/// engine's value is its loaded model, if it has one.
pub struct WhisperEngine<M> {
    model: Option<(M, String)>,
}

impl<M> View for WhisperEngine<M> {
    type V = Option<LoadedModel<M>>;

    closed spec fn view(&self) -> Option<LoadedModel<M>> {
        match self.model {
            Some((context, path)) => Some(LoadedModel { context, path: path@ }),
            None => None,
        }
    }
}

impl<M> WhisperEngine<M> {
    /// An engine without a model.
    pub fn new() -> (engine: Self)
        ensures
            engine@ is None,
    {
        WhisperEngine { model: None }
    }

    /// Loads the model file at `model_path`.
    ///
    /// `probe` says whether the file exists. Where it does not, the result is
    /// `ModelFileNotFound` and `open` is not called. Where it does, `open`
    /// loads it: a failure gives `ModelLoadFailed` with the loader's reason;
    /// a success makes the new model the engine's model, in place of the one
    /// before. Every failure leaves the engine as it was.
    pub fn load_model<P: FnOnce(&String) -> bool, O: FnOnce(&String) -> Result<M, String>>(
        &mut self,
        model_path: String,
        probe: P,
        open: O,
    ) -> (result: Result<(), ModelError>)
        requires
            call_requires(probe, (&model_path,)),
            call_requires(open, (&model_path,)),
        ensures
            is_load(probe, open, model_path, old(self)@, final(self)@, result),
            result is Ok ==> final(self)@ is Some && final(self)@->Some_0.path == model_path@,
            result is Err ==> final(self)@ == old(self)@,
    {
        let found = probe(&model_path);
        if !found {
            return Err(ModelError::ModelFileNotFound(model_path));
        }
        let opened = open(&model_path);
        let ghost attempt = LoadAttempt { path: model_path@, found: true, opened };
        match opened {
            Ok(context) => {
                self.model = Some((context, model_path));
                assert(self@ == after_load(old(self)@, attempt));
                Ok(())
            },
            Err(reason) => {
                assert(self@ == after_load(old(self)@, attempt));
                Err(ModelError::ModelLoadFailed(reason))
            },
        }
    }

    /// Transcribes `audio_samples`.
    ///
    /// Without a loaded model the result is `ModelNotLoaded` and `infer` is
    /// not called. With one, `infer` runs the model over exactly these
    /// samples with the greedy options for `language`, and the result is the
    /// transcript of the segments it returns, or its failure. The engine asks
    /// for no minimum length: short input is the recognizer's to deal with.
    pub fn transcribe<S, F: FnOnce(&M, &[S], &DecodeOptions) -> Result<Vec<String>, String>>(
        &self,
        audio_samples: &[S],
        language: Option<&str>,
        infer: F,
    ) -> (result: Result<String, TranscribeError>)
        requires
            inference_is_total::<M, S, F>(infer),
        ensures
            self@ is None ==> result == Err::<String, TranscribeError>(
                TranscribeError::ModelNotLoaded,
            ),
            self@ is Some ==> is_inference(
                infer,
                self@->Some_0.context,
                audio_samples,
                language_text(language),
                result,
            ),
    {
        match &self.model {
            None => Err(TranscribeError::ModelNotLoaded),
            Some((context, _)) => {
                let options = DecodeOptions::greedy(language);
                let outcome = infer(context, audio_samples, &options);
                let result = finish_transcript(outcome);
                assert(call_ensures(infer, (context, audio_samples, &options), outcome));
                result
            },
        }
    }

    /// Transcribes the samples of a recording that is still going on. This is
    /// `transcribe` on a slice that will grow: the caller decides when the
    /// slice is long enough to be worth the attempt.
    pub fn transcribe_chunk<S, F: FnOnce(&M, &[S], &DecodeOptions) -> Result<Vec<String>, String>>(
        &self,
        audio_samples: &[S],
        language: Option<&str>,
        infer: F,
    ) -> (result: Result<String, TranscribeError>)
        requires
            inference_is_total::<M, S, F>(infer),
        ensures
            self@ is None ==> result == Err::<String, TranscribeError>(
                TranscribeError::ModelNotLoaded,
            ),
            self@ is Some ==> is_inference(
                infer,
                self@->Some_0.context,
                audio_samples,
                language_text(language),
                result,
            ),
    {
        self.transcribe(audio_samples, language, infer)
    }

    /// Whether a model is loaded.
    pub fn is_loaded(&self) -> (loaded: bool)
        ensures
            loaded == (self@ is Some),
    {
        self.model.is_some()
    }

    /// The path that the loaded model was loaded from.
    pub fn get_model_path(&self) -> (path: Option<&String>)
        ensures
            self@ is None ==> path is None,
            self@ is Some ==> path is Some && path->Some_0@ == self@->Some_0.path,
    {
        match &self.model {
            Some((_, path)) => Some(path),
            None => None,
        }
    }
}

impl<M> Default for WhisperEngine<M> {
    fn default() -> (engine: Self)
        ensures
            engine@ is None,
    {
        WhisperEngine::new()
    }
}

/// Whether `infer` may be called on every model, every slice of samples and
/// every set of options.
pub open spec fn inference_is_total<
    M,
    S,
    F: FnOnce(&M, &[S], &DecodeOptions) -> Result<Vec<String>, String>,
>(infer: F) -> bool {
    forall|context: &M, samples: &[S], options: &DecodeOptions|
        call_requires(infer, (context, samples, options))
}

/// `result` is what a transcription of `samples` in `language` returns over
/// the model `context`: `infer` was run on that model and those samples with
/// the greedy options for the language, and `result` is the transcription of
/// what it returned.
pub open spec fn is_inference<
    M,
    S,
    F: FnOnce(&M, &[S], &DecodeOptions) -> Result<Vec<String>, String>,
>(
    infer: F,
    context: M,
    samples: &[S],
    language: Option<Seq<char>>,
    result: Result<String, TranscribeError>,
) -> bool {
    exists|options: &DecodeOptions, outcome: Result<Vec<String>, String>|
        #![trigger call_ensures(infer, (&context, samples, options), outcome)]
        {
            &&& options@ == greedy_options(language)
            &&& call_ensures(infer, (&context, samples, options), outcome)
            &&& is_transcription(outcome, result)
        }
}

/// Whether two outcomes of the recognizer are the same: the same segments,
/// or the same failure.
pub open spec fn same_outcome(
    first: Result<Vec<String>, String>,
    second: Result<Vec<String>, String>,
) -> bool {
    match (first, second) {
        (Ok(a), Ok(b)) => a.deep_view() == b.deep_view(),
        (Err(a), Err(b)) => a@ == b@,
        _ => false,
    }
}

/// Whether two results of a transcription are the same: the same text, or
/// the same error.
pub open spec fn same_result(
    first: Result<String, TranscribeError>,
    second: Result<String, TranscribeError>,
) -> bool {
    match (first, second) {
        (Ok(a), Ok(b)) => a@ == b@,
        (Err(TranscribeError::ModelNotLoaded), Err(TranscribeError::ModelNotLoaded)) => true,
        (Err(TranscribeError::InferenceFailed(a)), Err(TranscribeError::InferenceFailed(b))) => a@
            == b@,
        _ => false,
    }
}

/// Whether `infer` decodes without chance: on one model, the same samples and
/// options of the same content, it has one outcome.
pub open spec fn inference_is_deterministic<
    M,
    S,
    F: FnOnce(&M, &[S], &DecodeOptions) -> Result<Vec<String>, String>,
>(infer: F) -> bool {
    forall|
        context: &M,
        samples: &[S],
        a: &DecodeOptions,
        b: &DecodeOptions,
        first: Result<Vec<String>, String>,
        second: Result<Vec<String>, String>,
    |
        #![trigger call_ensures(infer, (context, samples, a), first), call_ensures(infer, (context, samples, b), second)]
        a@ == b@ && call_ensures(infer, (context, samples, a), first) && call_ensures(
            infer,
            (context, samples, b),
            second,
        ) ==> same_outcome(first, second)
}

/// A transcription repeats: over a recognizer that decodes without chance,
/// two transcriptions of the same samples in the same language over the same
/// model return the same text, or the same error.
pub proof fn lemma_transcription_repeats<
    M,
    S,
    F: FnOnce(&M, &[S], &DecodeOptions) -> Result<Vec<String>, String>,
>(
    infer: F,
    context: M,
    samples: &[S],
    language: Option<Seq<char>>,
    first: Result<String, TranscribeError>,
    second: Result<String, TranscribeError>,
)
    requires
        inference_is_deterministic::<M, S, F>(infer),
        is_inference(infer, context, samples, language, first),
        is_inference(infer, context, samples, language, second),
    ensures
        same_result(first, second),
{
    let (a, x) = choose|a: &DecodeOptions, x: Result<Vec<String>, String>|
        #![trigger call_ensures(infer, (&context, samples, a), x)]
        a@ == greedy_options(language) && call_ensures(infer, (&context, samples, a), x)
            && is_transcription(x, first);
    let (b, y) = choose|b: &DecodeOptions, y: Result<Vec<String>, String>|
        #![trigger call_ensures(infer, (&context, samples, b), y)]
        b@ == greedy_options(language) && call_ensures(infer, (&context, samples, b), y)
            && is_transcription(y, second);
    assert(same_outcome(x, y));
}

/// An engine has a model only behind a load that succeeded: after any
/// attempts on an engine without a model, the engine has a model exactly if
/// one of the attempts succeeded.
pub proof fn lemma_loaded_iff_some_load_succeeded<M>(attempts: Seq<LoadAttempt<M>>)
    ensures
        after_loads(None::<LoadedModel<M>>, attempts) is Some <==> exists|i: int|
            0 <= i < attempts.len() && (#[trigger] attempts[i]).succeeded(),
    decreases attempts.len(),
{
    if attempts.len() > 0 {
        let earlier = attempts.drop_last();
        lemma_loaded_iff_some_load_succeeded(earlier);
        if after_loads(None::<LoadedModel<M>>, attempts) is Some {
            if attempts.last().succeeded() {
                assert(attempts[attempts.len() - 1].succeeded());
            } else {
                let i = choose|i: int| 0 <= i < earlier.len() && (#[trigger] earlier[i]).succeeded();
                assert(attempts[i] == earlier[i]);
            }
        }
        if exists|i: int| 0 <= i < attempts.len() && (#[trigger] attempts[i]).succeeded() {
            let i = choose|i: int| 0 <= i < attempts.len() && (#[trigger] attempts[i]).succeeded();
            if i < earlier.len() {
                assert(earlier[i] == attempts[i]);
            }
        }
    }
}

/// The model of an engine is the one that the last successful load brought:
/// an attempt that fails changes nothing, and one that succeeds installs its
/// model under its path, whatever was there.
pub proof fn lemma_load_replaces_or_keeps<M>(before: Option<LoadedModel<M>>, attempt: LoadAttempt<M>)
    ensures
        attempt.succeeded() ==> after_load(before, attempt) == Some(
            LoadedModel { context: attempt.opened->Ok_0, path: attempt.path },
        ),
        !attempt.succeeded() ==> after_load(before, attempt) == before,
{
}

} // verus!
