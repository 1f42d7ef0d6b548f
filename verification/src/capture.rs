//! The capture session's decisions: which stream configuration to open, and
//! how a block of interleaved frames becomes mono samples.
//!
//! The session itself (the device, the stream and its callback thread) is the
//! caller's. What it learns from the device it hands over as plain values; what
//! comes back tells it how to open the stream and what to store.

use vstd::prelude::*;
use vstd::string::*;

verus! {

/// Sample rate, in hertz, that the recognizer consumes.
pub const REQUIRED_SAMPLE_RATE: u32 = 16000;

/// Longest wait, in milliseconds, for a new stream to be confirmed playing.
pub const STARTUP_TIMEOUT_MS: u64 = 5000;

/// The stream configuration of one session, fixed when the session starts.
#[derive(Clone, Copy, Debug, PartialEq, Eq)]
pub struct DeviceConfig {
    pub sample_rate: u32,
    pub channels: u16,
}

/// One configuration that a device supports: a range of sample rates at a
/// channel count.
#[derive(Clone, Copy, Debug, PartialEq, Eq)]
pub struct ConfigRange {
    pub min_sample_rate: u32,
    pub max_sample_rate: u32,
    pub channels: u16,
}

/// Why a capture session did not start.
#[derive(Debug, PartialEq, Eq)]
pub enum CaptureError {
    /// No input device exists.
    NoDeviceAvailable,
    /// The device did not list its configurations; holds the driver's message.
    EnumerationFailed(String),
    /// The stream could not be built; holds the driver's message.
    StreamBuildError(String),
    /// The stream could not be set playing; holds the driver's message.
    StreamPlayError(String),
    /// The stream was not confirmed playing within the startup timeout.
    StartupTimeout,
}

impl CaptureError {
    /// The text of `message`.
    pub open spec fn message_text(&self) -> Seq<char> {
        match self {
            CaptureError::NoDeviceAvailable => "No input device available"@,
            CaptureError::EnumerationFailed(reason) => "Failed to get supported configs: "@
                + reason@,
            CaptureError::StreamBuildError(reason) => "Failed to build input stream: "@ + reason@,
            CaptureError::StreamPlayError(reason) => "Failed to play stream: "@ + reason@,
            CaptureError::StartupTimeout => "Recording failed to start in time"@,
        }
    }

    /// The error as a line of text; a driver's message is kept whole, behind
    /// a prefix that names the step that failed.
    pub fn message(&self) -> (text: String)
        ensures
            text@ == self.message_text(),
    {
        match self {
            CaptureError::NoDeviceAvailable => String::from_str("No input device available"),
            CaptureError::EnumerationFailed(reason) => String::from_str(
                "Failed to get supported configs: ",
            ).concat(reason.as_str()),
            CaptureError::StreamBuildError(reason) => String::from_str(
                "Failed to build input stream: ",
            ).concat(reason.as_str()),
            CaptureError::StreamPlayError(reason) => String::from_str(
                "Failed to play stream: ",
            ).concat(reason.as_str()),
            CaptureError::StartupTimeout => String::from_str("Recording failed to start in time"),
        }
    }
}

/// Whether `range` includes the rate `rate`.
pub open spec fn covers(range: ConfigRange, rate: u32) -> bool {
    range.min_sample_rate <= rate <= range.max_sample_rate
}

/// Whether some supported configuration includes the recognizer's rate.
pub open spec fn supports_required_rate(supported: Seq<ConfigRange>) -> bool {
    exists|i: int| 0 <= i < supported.len() && covers(#[trigger] supported[i], REQUIRED_SAMPLE_RATE)
}

/// The configuration in which the recognizer's rate is captured directly.
pub open spec fn direct_config() -> DeviceConfig {
    DeviceConfig { sample_rate: REQUIRED_SAMPLE_RATE, channels: 1 }
}

/// Chooses the stream configuration for a session.
///
/// Where a supported configuration includes the recognizer's rate, the stream
/// is opened mono at that rate. Otherwise the device's default configuration
/// is taken as it is, and the recording is resampled afterwards. `None` means
/// that neither exists.
pub fn select_config(supported: &[ConfigRange], fallback: Option<DeviceConfig>) -> (chosen: Option<
    DeviceConfig,
>)
    ensures
        supports_required_rate(supported@) ==> chosen == Some(direct_config()),
        !supports_required_rate(supported@) ==> chosen == fallback,
{
    let n: usize = supported.len();
    let mut i: usize = 0;
    while i < n
        invariant
            n == supported@.len(),
            i <= n,
            forall|k: int| 0 <= k < i ==> !covers(#[trigger] supported@[k], REQUIRED_SAMPLE_RATE),
        decreases n - i,
    {
        let range = supported[i];
        if range.min_sample_rate <= REQUIRED_SAMPLE_RATE && range.max_sample_rate
            >= REQUIRED_SAMPLE_RATE {
            assert(covers(supported@[i as int], REQUIRED_SAMPLE_RATE));
            return Some(DeviceConfig { sample_rate: REQUIRED_SAMPLE_RATE, channels: 1 });
        }
        i += 1;
    }
    fallback
}

/// Number of frames in `len` interleaved samples at `channels` channels; a
/// last, incomplete frame counts.
pub open spec fn frame_count(len: nat, channels: nat) -> nat
    recommends
        channels > 0,
{
    (len + channels - 1) as nat / channels
}

/// The samples of frame `k`: `channels` samples from `k * channels` on, or
/// those that are left where the data ends inside the frame.
pub open spec fn frame_at<T>(data: Seq<T>, k: int, channels: nat) -> Seq<T>
    recommends
        channels > 0,
        0 <= k < frame_count(data.len(), channels),
{
    let start = k * channels;
    let end = if start + channels < data.len() {
        start + channels
    } else {
        data.len() as int
    };
    data.subrange(start, end)
}

/// `sample` is a result of `mean` on the samples of frame `k` of `data`.
pub open spec fn is_frame_mean<T, F: Fn(&[T], u16) -> T>(
    mean: F,
    data: Seq<T>,
    k: int,
    channels: u16,
    sample: T,
) -> bool {
    exists|chunk: &[T]|
        #![trigger call_ensures(mean, (chunk, channels), sample)]
        chunk@ == frame_at(data, k, channels as nat) && call_ensures(
            mean,
            (chunk, channels),
            sample,
        )
}

/// `out` is the mono form of `data`: `data` itself where it has at most one
/// channel, else one sample per frame, each a result of `mean` on the frame's
/// samples and the channel count.
pub open spec fn is_downmix<T, F: Fn(&[T], u16) -> T>(
    mean: F,
    data: Seq<T>,
    channels: u16,
    out: Seq<T>,
) -> bool {
    if channels <= 1 {
        out == data
    } else {
        &&& out.len() == frame_count(data.len(), channels as nat)
        &&& forall|k: int|
            0 <= k < out.len() ==> is_frame_mean(mean, data, k, channels, #[trigger] out[k])
    }
}

/// Whether `mean` may be called on every frame that is not empty.
pub open spec fn mean_is_total<T, F: Fn(&[T], u16) -> T>(mean: F) -> bool {
    forall|chunk: &[T], channels: u16| chunk@.len() > 0 ==> call_requires(mean, (chunk, channels))
}

/// Turns a block of interleaved frames into mono samples.
///
/// Data with one channel passes through. With more, every frame gives one
/// sample, `mean(frame, channels)`; the frames are taken in order, and a block
/// that ends inside a frame gives a last sample from what is there.
pub fn downmix<T: Copy, F: Fn(&[T], u16) -> T>(data: &[T], channels: u16, mean: F) -> (out: Vec<T>)
    requires
        mean_is_total(mean),
    ensures
        is_downmix(mean, data@, channels, out@),
{
    let len: usize = data.len();
    if channels <= 1 {
        let out = crate::buffer::copy_range(data, 0, len);
        assert(data@.subrange(0, len as int) =~= data@);
        return out;
    }
    let width: usize = channels as usize;
    let mut out: Vec<T> = Vec::new();
    let mut start: usize = 0;
    assert(len == 0 ==> frame_count(len as nat, width as nat) == 0) by (nonlinear_arith)
        requires
            width > 1,
    ;
    while start < len
        invariant
            len == data@.len(),
            width == channels,
            width > 1,
            mean_is_total(mean),
            start <= len,
            start < len ==> start == out@.len() * width,
            start == len ==> out@.len() == frame_count(len as nat, width as nat),
            forall|k: int|
                0 <= k < out@.len() ==> is_frame_mean(mean, data@, k, channels, #[trigger] out@[k]),
        decreases len - start,
    {
        let end: usize = if width < len - start {
            start + width
        } else {
            len
        };
        let chunk: &[T] = vstd::slice::slice_subrange(data, start, end);
        let ghost k = out@.len() as int;
        proof {
            lemma_frame_step(len as nat, width as nat, k as nat);
        }
        assert(chunk@ == frame_at(data@, k, width as nat));
        let sample: T = mean(chunk, channels);
        assert(is_frame_mean(mean, data@, k, channels, sample));
        let ghost before = out@;
        out.push(sample);
        assert(forall|j: int| 0 <= j < k ==> out@[j] == before[j]);
        start = end;
    }
    out
}

/// Stepping over frame `k` either stays inside the data, with more frames to
/// come, or reaches its end, with `k + 1` frames in all.
pub proof fn lemma_frame_step(len: nat, channels: nat, k: nat)
    requires
        channels > 0,
        k * channels < len,
    ensures
        (k + 1) * channels == k * channels + channels,
        (k + 1) * channels < len ==> k + 1 < frame_count(len, channels),
        (k + 1) * channels >= len ==> k + 1 == frame_count(len, channels),
        k < frame_count(len, channels),
{
    let padded = (len + channels - 1) as nat;
    assert((k + 1) * channels == k * channels + channels) by (nonlinear_arith);
    assert(k < padded / channels) by (nonlinear_arith)
        requires
            channels > 0,
            k * channels < len,
            padded == len + channels - 1,
    ;
    if (k + 1) * channels < len {
        assert(k + 1 < padded / channels) by (nonlinear_arith)
            requires
                channels > 0,
                (k + 1) * channels < len,
                padded == len + channels - 1,
        ;
    } else {
        assert(padded / channels <= k + 1) by (nonlinear_arith)
            requires
                channels > 0,
                (k + 1) * channels >= len,
                padded == len + channels - 1,
        ;
    }
}

} // verus!
