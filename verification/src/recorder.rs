//! The recording controller: one recording at a time, from start to stop.
//!
//! The controller is a state machine over three states. `Idle` has no
//! session. `Starting` has a session whose stream is not yet confirmed
//! playing. `Active` has a session that records. The only ways through are
//!
//! ```text
//! Idle --start--> Starting --ready--> Active --stop--> Idle
//!                 Starting --failure or timeout--> Idle
//! ```
//!
//! The controller owns the sample buffer of its session. It does not own the
//! device: whoever drives the hardware reports what happened (`confirm_ready`,
//! `abort_start`, `capture`) and asks what to do next (`poll_start`,
//! `is_capturing`). Every method is one step of the machine, and its contract
//! names the step.

use vstd::prelude::*;
use crate::buffer::{tail_of, SampleBuffer};
use crate::capture::{
    downmix, is_downmix, mean_is_total, CaptureError, DeviceConfig, REQUIRED_SAMPLE_RATE,
    STARTUP_TIMEOUT_MS,
};
use crate::resample::{blend_is_total, is_resampling, resample, resample_defined};

verus! {

/// Number of most recent samples that the level meter looks at: about a
/// tenth of a second at the recognizer's rate.
pub const LEVEL_WINDOW: usize = 1600;

/// Where the controller stands.
#[derive(Clone, Copy, Debug, PartialEq, Eq)]
pub enum CaptureState {
    /// No session.
    Idle,
    /// A session was started; its stream is not confirmed playing yet.
    Starting,
    /// A session is recording.
    Active,
}

/// A call that the controller's state does not allow.
#[derive(Clone, Copy, Debug, PartialEq, Eq)]
pub enum StateError {
    /// `start_recording` while a session exists.
    AlreadyRecording,
    /// `stop_recording` while no session is recording.
    NotRecording,
}

impl StateError {
    /// The text of `message`.
    pub open spec fn message_text(&self) -> Seq<char> {
        match self {
            StateError::AlreadyRecording => "Already recording"@,
            StateError::NotRecording => "Not recording"@,
        }
    }

    /// The error as a line of text.
    pub fn message(&self) -> (text: String)
        ensures
            text@ == self.message_text(),
    {
        match self {
            StateError::AlreadyRecording => "Already recording".to_owned(),
            StateError::NotRecording => "Not recording".to_owned(),
        }
    }
}

/// What a caller who waits for a session to start is told.
#[derive(Debug, PartialEq, Eq)]
pub enum StartProgress {
    /// The session records.
    Ready,
    /// The stream is not confirmed yet, and the timeout has not passed.
    Pending,
    /// The session did not start; the controller is idle again.
    Failed(CaptureError),
    /// No session was started.
    NotStarted,
}

/// The controller as a value: its state, the sample rate of its session, the
/// samples captured so far, and the failure of the last start while nobody
/// has collected it.
pub struct RecorderModel<T> {
    pub state: CaptureState,
    pub sample_rate: u32,
    pub samples: Seq<T>,
    pub failure: Option<CaptureError>,
}

/// One thing that happens to a controller.
pub enum Event<T> {
    /// A caller asks for a session.
    Start,
    /// The stream of the session is confirmed playing, at this sample rate.
    Ready(u32),
    /// The session reports that it could not start.
    Abort(CaptureError),
    /// A waiting caller looks again, this many milliseconds after the start.
    Poll(u64),
    /// The session delivers these mono samples.
    Capture(Seq<T>),
    /// A caller ends the session.
    Stop,
}

impl<T> RecorderModel<T> {
    /// The controller before anything happened.
    pub open spec fn initial() -> Self {
        RecorderModel {
            state: CaptureState::Idle,
            sample_rate: REQUIRED_SAMPLE_RATE,
            samples: Seq::empty(),
            failure: None,
        }
    }

    /// Whether the write gate is open: samples are stored while a session
    /// exists.
    pub open spec fn gate_open(self) -> bool {
        self.state != CaptureState::Idle
    }

    /// The controller after `event`.
    pub open spec fn step(self, event: Event<T>) -> Self {
        match event {
            Event::Start => if self.state == CaptureState::Idle {
                RecorderModel {
                    state: CaptureState::Starting,
                    samples: Seq::empty(),
                    failure: None,
                    ..self
                }
            } else {
                self
            },
            Event::Ready(rate) => if self.state == CaptureState::Starting {
                RecorderModel { state: CaptureState::Active, sample_rate: rate, ..self }
            } else {
                self
            },
            Event::Abort(error) => if self.state == CaptureState::Starting {
                RecorderModel { state: CaptureState::Idle, failure: Some(error), ..self }
            } else {
                self
            },
            Event::Poll(elapsed_ms) => if self.state == CaptureState::Starting && elapsed_ms
                > STARTUP_TIMEOUT_MS {
                RecorderModel { state: CaptureState::Idle, ..self }
            } else if self.state == CaptureState::Idle {
                RecorderModel { failure: None, ..self }
            } else {
                self
            },
            Event::Capture(mono) => if self.gate_open() {
                RecorderModel { samples: self.samples + mono, ..self }
            } else {
                self
            },
            Event::Stop => if self.state == CaptureState::Active {
                RecorderModel { state: CaptureState::Idle, samples: Seq::empty(), ..self }
            } else {
                self
            },
        }
    }

    /// The controller after `events`, in order.
    pub open spec fn run(self, events: Seq<Event<T>>) -> Self
        decreases events.len(),
    {
        if events.len() == 0 {
            self
        } else {
            self.run(events.drop_last()).step(events.last())
        }
    }

    /// Whether `event` opens a session on this controller.
    pub open spec fn opens_session(self, event: Event<T>) -> bool {
        event is Start && self.state == CaptureState::Idle
    }

    /// Whether `event` ends the session of this controller.
    pub open spec fn ends_session(self, event: Event<T>) -> bool {
        self.state != CaptureState::Idle && self.step(event).state == CaptureState::Idle
    }

    /// Sessions opened less sessions ended, over `events`.
    pub open spec fn open_sessions(self, events: Seq<Event<T>>) -> int
        decreases events.len(),
    {
        if events.len() == 0 {
            0
        } else {
            let before = self.run(events.drop_last());
            self.open_sessions(events.drop_last()) + if before.opens_session(events.last()) {
                1int
            } else if before.ends_session(events.last()) {
                -1int
            } else {
                0int
            }
        }
    }
}

/// What `poll_start` tells a caller who polls `model` after `elapsed_ms`.
pub open spec fn progress_of<T>(model: RecorderModel<T>, elapsed_ms: u64) -> StartProgress {
    match model.state {
        CaptureState::Active => StartProgress::Ready,
        CaptureState::Starting => if elapsed_ms > STARTUP_TIMEOUT_MS {
            StartProgress::Failed(CaptureError::StartupTimeout)
        } else {
            StartProgress::Pending
        },
        CaptureState::Idle => match model.failure {
            Some(error) => StartProgress::Failed(error),
            None => StartProgress::NotStarted,
        },
    }
}

/// Whether `rms` may be called on every window that is not empty.
pub open spec fn meter_is_total<T, L, R: FnOnce(&[T]) -> L>(rms: R) -> bool {
    forall|window: &[T]| window@.len() > 0 ==> call_requires(rms, (window,))
}

/// `level` is a result of `rms` on the last `LEVEL_WINDOW` samples.
pub open spec fn is_level<T, L, R: FnOnce(&[T]) -> L>(rms: R, samples: Seq<T>, level: L) -> bool {
    exists|window: &[T]|
        #![trigger call_ensures(rms, (window,), level)]
        window@ == tail_of(samples, LEVEL_WINDOW as nat) && call_ensures(rms, (window,), level)
}

/// The recording controller.
pub struct AudioRecorder<T> {
    state: CaptureState,
    sample_rate: u32,
    buffer: SampleBuffer<T>,
    failure: Option<CaptureError>,
}

impl<T> View for AudioRecorder<T> {
    type V = RecorderModel<T>;

    closed spec fn view(&self) -> RecorderModel<T> {
        RecorderModel {
            state: self.state,
            sample_rate: self.sample_rate,
            samples: self.buffer@,
            failure: self.failure,
        }
    }
}

impl<T: Copy> AudioRecorder<T> {
    /// An idle controller with nothing recorded.
    pub fn new() -> (recorder: Self)
        ensures
            recorder@ == RecorderModel::<T>::initial(),
    {
        AudioRecorder {
            state: CaptureState::Idle,
            sample_rate: REQUIRED_SAMPLE_RATE,
            buffer: SampleBuffer::new(),
            failure: None,
        }
    }

    /// Opens a session.
    ///
    /// While a session exists, whether it is starting or recording, this
    /// fails with `AlreadyRecording` and changes nothing. Otherwise what an
    /// earlier session left is dropped, and the controller is `Starting`: the
    /// caller now opens the stream and waits with `poll_start`.
    pub fn start_recording(&mut self) -> (result: Result<(), StateError>)
        ensures
            final(self)@ == old(self)@.step(Event::Start),
            old(self)@.state == CaptureState::Idle ==> result == Ok::<(), StateError>(())
                && final(self)@.state == CaptureState::Starting && final(self)@.samples.len() == 0,
            old(self)@.state != CaptureState::Idle ==> result == Err::<(), StateError>(
                StateError::AlreadyRecording,
            ) && final(self)@ == old(self)@,
    {
        match self.state {
            CaptureState::Idle => {
                self.buffer.clear();
                self.failure = None;
                self.state = CaptureState::Starting;
                Ok(())
            },
            _ => Err(StateError::AlreadyRecording),
        }
    }

    /// Reports that the stream of the starting session is playing at
    /// `config`'s sample rate. A controller that is `Starting` becomes
    /// `Active` and keeps the rate; any other ignores the report. The result
    /// says whether the report was taken.
    pub fn confirm_ready(&mut self, config: DeviceConfig) -> (taken: bool)
        ensures
            final(self)@ == old(self)@.step(Event::Ready(config.sample_rate)),
            taken == (old(self)@.state == CaptureState::Starting),
            taken ==> final(self)@.state == CaptureState::Active && final(self)@.sample_rate
                == config.sample_rate,
            !taken ==> final(self)@ == old(self)@,
    {
        match self.state {
            CaptureState::Starting => {
                self.sample_rate = config.sample_rate;
                self.state = CaptureState::Active;
                true
            },
            _ => false,
        }
    }

    /// Reports that the starting session failed with `error`. A controller
    /// that is `Starting` becomes `Idle` and keeps the error for the caller
    /// who waits; any other ignores the report. The result says whether the
    /// report was taken.
    pub fn abort_start(&mut self, error: CaptureError) -> (taken: bool)
        ensures
            final(self)@ == old(self)@.step(Event::Abort(error)),
            taken == (old(self)@.state == CaptureState::Starting),
            taken ==> final(self)@.state == CaptureState::Idle && final(self)@.failure == Some(
                error,
            ),
            !taken ==> final(self)@ == old(self)@,
    {
        match self.state {
            CaptureState::Starting => {
                self.failure = Some(error);
                self.state = CaptureState::Idle;
                true
            },
            _ => false,
        }
    }

    /// Tells a caller who waits for the session to start, `elapsed_ms`
    /// milliseconds after `start_recording`, how far it is.
    ///
    /// `Ready` once the controller is `Active`. While it is `Starting`:
    /// `Pending` up to the startup timeout, and past it the start is given up,
    /// the controller is `Idle` and the answer is `Failed(StartupTimeout)`.
    /// On an idle controller the failure that the session reported is handed
    /// over, once; without one the answer is `NotStarted`.
    pub fn poll_start(&mut self, elapsed_ms: u64) -> (progress: StartProgress)
        ensures
            final(self)@ == old(self)@.step(Event::Poll(elapsed_ms)),
            progress == progress_of(old(self)@, elapsed_ms),
            progress is Ready <==> final(self)@.state == CaptureState::Active,
            progress is Pending <==> final(self)@.state == CaptureState::Starting,
    {
        match self.state {
            CaptureState::Active => StartProgress::Ready,
            CaptureState::Starting => {
                if elapsed_ms > STARTUP_TIMEOUT_MS {
                    self.state = CaptureState::Idle;
                    StartProgress::Failed(CaptureError::StartupTimeout)
                } else {
                    StartProgress::Pending
                }
            },
            CaptureState::Idle => {
                match self.failure.take() {
                    Some(error) => StartProgress::Failed(error),
                    None => StartProgress::NotStarted,
                }
            },
        }
    }

    /// Takes one block of interleaved frames from the stream's callback.
    ///
    /// While a session exists the block is stored, as mono samples, behind
    /// what is there; without one it is dropped. The result is the number of
    /// samples stored.
    pub fn capture<F: Fn(&[T], u16) -> T>(&mut self, data: &[T], channels: u16, mean: F) -> (stored:
        usize)
        requires
            mean_is_total(mean),
        ensures
            !old(self)@.gate_open() ==> stored == 0 && final(self)@ == old(self)@,
            old(self)@.gate_open() ==> exists|mono: Seq<T>|
                #![trigger is_downmix(mean, data@, channels, mono)]
                is_downmix(mean, data@, channels, mono) && stored == mono.len() && final(self)@
                    == old(self)@.step(Event::Capture(mono)),
            final(self)@.state == old(self)@.state,
            final(self)@.sample_rate == old(self)@.sample_rate,
            final(self)@.failure == old(self)@.failure,
            final(self)@.samples.len() == old(self)@.samples.len() + stored,
            final(self)@.samples.subrange(0, old(self)@.samples.len() as int) == old(self)@.samples,
    {
        match self.state {
            CaptureState::Idle => {
                assert(self@.samples.subrange(0, self@.samples.len() as int) =~= self@.samples);
                0
            },
            _ => {
                let mono = downmix(data, channels, mean);
                self.buffer.append(mono.as_slice());
                assert(self@ == old(self)@.step(Event::Capture(mono@)));
                assert(self@.samples.subrange(0, old(self)@.samples.len() as int) =~= old(
                    self,
                )@.samples);
                mono.len()
            },
        }
    }

    /// Ends the session and hands out its recording at the recognizer's rate.
    ///
    /// Unless the controller is `Active` this fails with `NotRecording` and
    /// changes nothing. Otherwise the write gate closes, the buffer is taken
    /// whole and left empty, and the controller is `Idle`. A recording made at
    /// the recognizer's rate is returned as captured; one made at another rate
    /// is converted with `resample`.
    pub fn stop_recording<F: Fn(T, T, u32, u32) -> T>(&mut self, lerp: F) -> (result: Result<
        Vec<T>,
        StateError,
    >)
        requires
            old(self)@.state == CaptureState::Active ==> resample_defined(
                old(self)@.samples.len(),
                old(self)@.sample_rate as nat,
                REQUIRED_SAMPLE_RATE as nat,
            ),
            blend_is_total(lerp),
        ensures
            final(self)@ == old(self)@.step(Event::Stop),
            old(self)@.state != CaptureState::Active ==> result == Err::<Vec<T>, StateError>(
                StateError::NotRecording,
            ) && final(self)@ == old(self)@,
            old(self)@.state == CaptureState::Active ==> result is Ok && final(self)@.state
                == CaptureState::Idle && final(self)@.samples.len() == 0 && is_resampling(
                lerp,
                old(self)@.samples,
                old(self)@.sample_rate,
                REQUIRED_SAMPLE_RATE,
                result->Ok_0@,
            ),
            old(self)@.state == CaptureState::Active && old(self)@.sample_rate
                == REQUIRED_SAMPLE_RATE ==> result->Ok_0@ == old(self)@.samples,
    {
        match self.state {
            CaptureState::Active => {
                self.state = CaptureState::Idle;
                let samples = self.buffer.take_and_clear();
                if self.sample_rate != REQUIRED_SAMPLE_RATE {
                    Ok(resample(samples.as_slice(), self.sample_rate, REQUIRED_SAMPLE_RATE, lerp))
                } else {
                    Ok(samples)
                }
            },
            _ => Err(StateError::NotRecording),
        }
    }

    /// Whether a session is recording. A session that is still starting does
    /// not count.
    pub fn is_recording(&self) -> (recording: bool)
        ensures
            recording == (self@.state == CaptureState::Active),
    {
        match self.state {
            CaptureState::Active => true,
            _ => false,
        }
    }

    /// Whether a session exists, starting or recording: the stream is kept
    /// open, and its samples are stored, for as long as this holds.
    pub fn is_capturing(&self) -> (capturing: bool)
        ensures
            capturing == self@.gate_open(),
    {
        match self.state {
            CaptureState::Idle => false,
            _ => true,
        }
    }

    /// The controller's state.
    pub fn state(&self) -> (state: CaptureState)
        ensures
            state == self@.state,
    {
        self.state
    }

    /// The sample rate of the last session that was confirmed playing; the
    /// recognizer's rate before the first.
    pub fn sample_rate(&self) -> (rate: u32)
        ensures
            rate == self@.sample_rate,
    {
        self.sample_rate
    }

    /// The level of what was captured last: `rms` of the most recent
    /// `LEVEL_WINDOW` samples, or of all where there are fewer. An idle
    /// controller, and one with nothing captured, gives `silence`. Nothing is
    /// changed.
    pub fn get_audio_level<L, R: FnOnce(&[T]) -> L>(&self, silence: L, rms: R) -> (level: L)
        requires
            meter_is_total(rms),
        ensures
            self@.state == CaptureState::Idle || self@.samples.len() == 0 ==> level == silence,
            self@.state != CaptureState::Idle && self@.samples.len() > 0 ==> is_level(
                rms,
                self@.samples,
                level,
            ),
    {
        match self.state {
            CaptureState::Idle => silence,
            _ => {
                if self.buffer.length() == 0 {
                    silence
                } else {
                    let window = self.buffer.tail(LEVEL_WINDOW);
                    rms(window)
                }
            },
        }
    }

    /// The samples captured at or after `from_sample`. A reader that keeps the
    /// count of what it has seen gets exactly what is new; an offset at or
    /// beyond the end gives an empty vector.
    pub fn get_samples_from(&self, from_sample: usize) -> (out: Vec<T>)
        ensures
            from_sample >= self@.samples.len() ==> out@ == Seq::<T>::empty(),
            from_sample < self@.samples.len() ==> out@ == self@.samples.subrange(
                from_sample as int,
                self@.samples.len() as int,
            ) && out@.len() == self@.samples.len() - from_sample,
    {
        self.buffer.snapshot_from(from_sample)
    }

    /// Number of samples captured so far in this session.
    pub fn get_sample_count(&self) -> (count: usize)
        ensures
            count == self@.samples.len(),
    {
        self.buffer.length()
    }

    /// A copy of everything captured so far; the session goes on.
    pub fn get_current_samples(&self) -> (out: Vec<T>)
        ensures
            out@ == self@.samples,
    {
        self.buffer.snapshot_all()
    }
}

impl<T: Copy> Default for AudioRecorder<T> {
    fn default() -> (recorder: Self)
        ensures
            recorder@ == RecorderModel::<T>::initial(),
    {
        AudioRecorder::new()
    }
}

} // verus!
