use hyprwhisper::capture::{CaptureError, DeviceConfig};
use hyprwhisper::recorder::{AudioRecorder, CaptureState, StartProgress, StateError, LEVEL_WINDOW};

fn lerp(a: f32, b: f32, numerator: u32, denominator: u32) -> f32 {
    let frac = (numerator as f64 / denominator as f64) as f32;
    a * (1.0 - frac) + b * frac
}

fn mean(frame: &[f32], channels: u16) -> f32 {
    frame.iter().sum::<f32>() / channels as f32
}

fn rms(window: &[f32]) -> f32 {
    let sum_squares: f32 = window.iter().map(|s| s * s).sum();
    (sum_squares / window.len() as f32).sqrt()
}

fn config(sample_rate: u32, channels: u16) -> DeviceConfig {
    DeviceConfig { sample_rate, channels }
}

fn recording_at(sample_rate: u32) -> AudioRecorder<f32> {
    let mut recorder = AudioRecorder::new();
    assert_eq!(recorder.start_recording(), Ok(()));
    assert!(recorder.confirm_ready(config(sample_rate, 1)));
    recorder
}

#[test]
fn a_new_recorder_is_idle_and_empty() {
    let recorder: AudioRecorder<f32> = AudioRecorder::new();
    assert_eq!(recorder.state(), CaptureState::Idle);
    assert!(!recorder.is_recording());
    assert!(!recorder.is_capturing());
    assert_eq!(recorder.sample_rate(), 16000);
    assert_eq!(recorder.get_sample_count(), 0);
    assert_eq!(recorder.get_current_samples(), Vec::<f32>::new());
}

#[test]
fn start_goes_to_starting_and_ready_to_active() {
    let mut recorder: AudioRecorder<f32> = AudioRecorder::new();
    assert_eq!(recorder.start_recording(), Ok(()));
    assert_eq!(recorder.state(), CaptureState::Starting);
    assert!(!recorder.is_recording());
    assert!(recorder.is_capturing());
    assert!(recorder.confirm_ready(config(44100, 2)));
    assert_eq!(recorder.state(), CaptureState::Active);
    assert!(recorder.is_recording());
    assert_eq!(recorder.sample_rate(), 44100);
}

#[test]
fn start_while_a_session_exists_fails_with_already_recording() {
    let mut recorder: AudioRecorder<f32> = AudioRecorder::new();
    assert_eq!(recorder.start_recording(), Ok(()));
    assert_eq!(recorder.start_recording(), Err(StateError::AlreadyRecording));
    assert_eq!(recorder.state(), CaptureState::Starting);
    assert!(recorder.confirm_ready(config(16000, 1)));
    recorder.capture(&[0.5, 0.25], 1, mean);
    assert_eq!(recorder.start_recording(), Err(StateError::AlreadyRecording));
    assert_eq!(recorder.state(), CaptureState::Active);
    assert_eq!(recorder.get_current_samples(), vec![0.5, 0.25]);
}

#[test]
fn stop_when_not_recording_fails_with_not_recording() {
    let mut recorder: AudioRecorder<f32> = AudioRecorder::new();
    assert_eq!(recorder.stop_recording(lerp), Err(StateError::NotRecording));
    assert_eq!(recorder.state(), CaptureState::Idle);
    assert_eq!(recorder.start_recording(), Ok(()));
    recorder.capture(&[0.5], 1, mean);
    assert_eq!(recorder.stop_recording(lerp), Err(StateError::NotRecording));
    assert_eq!(recorder.state(), CaptureState::Starting);
    assert_eq!(recorder.get_sample_count(), 1);
    assert!(recorder.confirm_ready(config(16000, 1)));
    assert_eq!(recorder.stop_recording(lerp), Ok(vec![0.5]));
    assert_eq!(recorder.stop_recording(lerp), Err(StateError::NotRecording));
}

#[test]
fn state_errors_have_their_messages() {
    assert_eq!(StateError::AlreadyRecording.message(), "Already recording");
    assert_eq!(StateError::NotRecording.message(), "Not recording");
}

#[test]
fn readiness_is_taken_only_while_starting() {
    let mut recorder: AudioRecorder<f32> = AudioRecorder::new();
    assert!(!recorder.confirm_ready(config(48000, 2)));
    assert_eq!(recorder.state(), CaptureState::Idle);
    assert_eq!(recorder.sample_rate(), 16000);
    assert!(!recorder.is_recording());
    let mut recorder = recording_at(16000);
    assert!(!recorder.confirm_ready(config(48000, 2)));
    assert_eq!(recorder.sample_rate(), 16000);
    assert_eq!(recorder.state(), CaptureState::Active);
}

#[test]
fn a_failed_start_returns_to_idle_and_surfaces_the_error() {
    let mut recorder: AudioRecorder<f32> = AudioRecorder::new();
    assert_eq!(recorder.start_recording(), Ok(()));
    assert_eq!(recorder.poll_start(10), StartProgress::Pending);
    assert!(recorder.abort_start(CaptureError::NoDeviceAvailable));
    assert_eq!(recorder.state(), CaptureState::Idle);
    assert!(!recorder.is_recording());
    assert_eq!(recorder.poll_start(20), StartProgress::Failed(CaptureError::NoDeviceAvailable));
    assert_eq!(recorder.poll_start(30), StartProgress::NotStarted);
    assert_eq!(recorder.start_recording(), Ok(()));
}

#[test]
fn a_failure_report_is_taken_only_while_starting() {
    let mut recorder: AudioRecorder<f32> = AudioRecorder::new();
    assert!(!recorder.abort_start(CaptureError::StreamPlayError("late".to_string())));
    assert_eq!(recorder.poll_start(0), StartProgress::NotStarted);
    let mut recorder = recording_at(16000);
    assert!(!recorder.abort_start(CaptureError::StreamBuildError("late".to_string())));
    assert_eq!(recorder.state(), CaptureState::Active);
    assert_eq!(recorder.poll_start(0), StartProgress::Ready);
}

#[test]
fn a_new_start_forgets_an_uncollected_failure() {
    let mut recorder: AudioRecorder<f32> = AudioRecorder::new();
    assert_eq!(recorder.start_recording(), Ok(()));
    assert!(recorder.abort_start(CaptureError::StreamBuildError("no format".to_string())));
    assert_eq!(recorder.start_recording(), Ok(()));
    assert_eq!(recorder.poll_start(1), StartProgress::Pending);
    assert!(recorder.confirm_ready(config(16000, 1)));
    assert_eq!(recorder.poll_start(2), StartProgress::Ready);
}

#[test]
fn the_start_times_out_after_five_seconds() {
    let mut recorder: AudioRecorder<f32> = AudioRecorder::new();
    assert_eq!(recorder.start_recording(), Ok(()));
    assert_eq!(recorder.poll_start(0), StartProgress::Pending);
    assert_eq!(recorder.poll_start(4999), StartProgress::Pending);
    assert_eq!(recorder.poll_start(5000), StartProgress::Pending);
    assert_eq!(recorder.state(), CaptureState::Starting);
    assert_eq!(recorder.poll_start(5001), StartProgress::Failed(CaptureError::StartupTimeout));
    assert_eq!(recorder.state(), CaptureState::Idle);
    assert!(!recorder.confirm_ready(config(16000, 1)));
    assert!(!recorder.is_recording());
    assert_eq!(recorder.poll_start(5002), StartProgress::NotStarted);
}

#[test]
fn a_poll_past_the_timeout_does_not_end_a_recording() {
    let mut recorder = recording_at(16000);
    assert_eq!(recorder.poll_start(u64::MAX), StartProgress::Ready);
    assert!(recorder.is_recording());
}

#[test]
fn samples_are_stored_only_while_a_session_exists() {
    let mut recorder: AudioRecorder<f32> = AudioRecorder::new();
    assert_eq!(recorder.capture(&[0.5, 0.5], 1, mean), 0);
    assert_eq!(recorder.get_sample_count(), 0);
    assert_eq!(recorder.start_recording(), Ok(()));
    assert_eq!(recorder.capture(&[0.1, 0.2], 1, mean), 2);
    assert!(recorder.confirm_ready(config(16000, 1)));
    assert_eq!(recorder.capture(&[0.3], 1, mean), 1);
    assert_eq!(recorder.get_current_samples(), vec![0.1, 0.2, 0.3]);
    assert_eq!(recorder.stop_recording(lerp), Ok(vec![0.1, 0.2, 0.3]));
    assert_eq!(recorder.capture(&[0.4], 1, mean), 0);
    assert_eq!(recorder.get_sample_count(), 0);
}

#[test]
fn multi_channel_blocks_are_stored_as_mono() {
    let mut recorder = recording_at(16000);
    assert_eq!(recorder.capture(&[1.0, 0.0, 0.5, 0.5], 2, mean), 2);
    assert_eq!(recorder.capture(&[-1.0, 1.0, 0.25], 2, mean), 2);
    assert_eq!(recorder.get_current_samples(), vec![0.5, 0.5, 0.0, 0.125]);
}

#[test]
fn a_new_session_starts_with_an_empty_buffer() {
    let mut recorder: AudioRecorder<f32> = AudioRecorder::new();
    assert_eq!(recorder.start_recording(), Ok(()));
    recorder.capture(&[0.1, 0.2], 1, mean);
    assert_eq!(recorder.poll_start(6000), StartProgress::Failed(CaptureError::StartupTimeout));
    assert_eq!(recorder.get_sample_count(), 2);
    assert_eq!(recorder.start_recording(), Ok(()));
    assert_eq!(recorder.get_sample_count(), 0);
}

#[test]
fn stop_returns_the_recording_and_empties_the_buffer() {
    let mut recorder = recording_at(16000);
    recorder.capture(&[0.1, 0.2, 0.3], 1, mean);
    assert_eq!(recorder.stop_recording(lerp), Ok(vec![0.1, 0.2, 0.3]));
    assert_eq!(recorder.state(), CaptureState::Idle);
    assert_eq!(recorder.get_sample_count(), 0);
    assert!(!recorder.is_capturing());
}

#[test]
fn stop_resamples_a_recording_made_at_another_rate() {
    let mut recorder = recording_at(48000);
    let data: Vec<f32> = (0..12).map(|i| i as f32).collect();
    recorder.capture(&data, 1, mean);
    assert_eq!(recorder.stop_recording(lerp), Ok(vec![0.0, 3.0, 6.0, 9.0]));
    let mut recorder = recording_at(8000);
    recorder.capture(&[0.0, 1.0], 1, mean);
    assert_eq!(recorder.stop_recording(lerp), Ok(vec![0.0, 0.5, 1.0, 1.0]));
}

#[test]
fn stop_of_an_empty_recording_returns_nothing() {
    let mut recorder = recording_at(48000);
    assert_eq!(recorder.stop_recording(lerp), Ok(Vec::<f32>::new()));
    let mut recorder = recording_at(16000);
    assert_eq!(recorder.stop_recording(lerp), Ok(Vec::<f32>::new()));
}

#[test]
fn the_rate_of_a_session_is_the_confirmed_one() {
    let mut recorder = recording_at(48000);
    recorder.capture(&[1.0, 2.0, 3.0], 1, mean);
    assert_eq!(recorder.stop_recording(lerp), Ok(vec![1.0]));
    assert_eq!(recorder.sample_rate(), 48000);
    assert_eq!(recorder.start_recording(), Ok(()));
    assert!(recorder.confirm_ready(config(16000, 1)));
    recorder.capture(&[1.0, 2.0, 3.0], 1, mean);
    assert_eq!(recorder.stop_recording(lerp), Ok(vec![1.0, 2.0, 3.0]));
}

#[test]
fn samples_from_returns_what_is_new() {
    let mut recorder = recording_at(16000);
    recorder.capture(&[0.1, 0.2, 0.3], 1, mean);
    let seen = recorder.get_sample_count();
    assert_eq!(recorder.get_samples_from(0), vec![0.1, 0.2, 0.3]);
    assert_eq!(recorder.get_samples_from(1), vec![0.2, 0.3]);
    assert_eq!(recorder.get_samples_from(seen), Vec::<f32>::new());
    assert_eq!(recorder.get_samples_from(seen + 7), Vec::<f32>::new());
    recorder.capture(&[0.4, 0.5], 1, mean);
    assert_eq!(recorder.get_samples_from(seen), vec![0.4, 0.5]);
    assert_eq!(recorder.get_samples_from(seen).len(), recorder.get_sample_count() - seen);
}

#[test]
fn level_is_silence_when_idle_or_empty() {
    let mut recorder: AudioRecorder<f32> = AudioRecorder::new();
    assert_eq!(recorder.get_audio_level(0.0, rms), 0.0);
    assert_eq!(recorder.start_recording(), Ok(()));
    assert_eq!(recorder.get_audio_level(0.0, rms), 0.0);
    assert!(recorder.confirm_ready(config(16000, 1)));
    assert_eq!(recorder.get_audio_level(0.0, rms), 0.0);
    recorder.capture(&[0.5, -0.5], 1, mean);
    assert_eq!(recorder.get_audio_level(0.0, rms), 0.5);
    assert_eq!(recorder.stop_recording(lerp), Ok(vec![0.5, -0.5]));
    assert_eq!(recorder.get_audio_level(0.0, rms), 0.0);
}

#[test]
fn level_of_a_failed_start_is_silence() {
    let mut recorder: AudioRecorder<f32> = AudioRecorder::new();
    assert_eq!(recorder.start_recording(), Ok(()));
    recorder.capture(&[0.5, -0.5], 1, mean);
    assert_eq!(recorder.get_audio_level(-1.0, rms), 0.5);
    assert!(recorder.abort_start(CaptureError::NoDeviceAvailable));
    assert_eq!(recorder.get_sample_count(), 2);
    assert_eq!(recorder.get_audio_level(-1.0, rms), -1.0);
}

#[test]
fn level_looks_at_the_last_window_only() {
    assert_eq!(LEVEL_WINDOW, 1600);
    let mut recorder = recording_at(16000);
    recorder.capture(&vec![1.0f32; 1000], 1, mean);
    assert_eq!(recorder.get_audio_level(0, |w: &[f32]| w.len()), 1000);
    recorder.capture(&vec![0.0f32; 600], 1, mean);
    assert_eq!(recorder.get_audio_level(0, |w: &[f32]| w.len()), 1600);
    let level = recorder.get_audio_level(0.0, rms);
    assert!((level - (1000.0f32 / 1600.0).sqrt()).abs() < 1e-6);
    recorder.capture(&vec![0.0f32; 1600], 1, mean);
    assert_eq!(recorder.get_audio_level(0, |w: &[f32]| w.len()), 1600);
    assert_eq!(recorder.get_audio_level(1.0, rms), 0.0);
    assert_eq!(recorder.get_sample_count(), 3200);
}

#[test]
fn the_default_recorder_is_a_new_one() {
    let recorder: AudioRecorder<f32> = AudioRecorder::default();
    assert_eq!(recorder.state(), CaptureState::Idle);
    assert_eq!(recorder.sample_rate(), 16000);
    assert_eq!(recorder.get_sample_count(), 0);
}

#[test]
fn blocks_are_stored_whole_and_in_order() {
    let data: Vec<f32> = (0..1000).map(|i| i as f32).collect();
    for size in [1usize, 7, 64, 999, 1000, 1001] {
        let mut recorder = recording_at(16000);
        for block in data.chunks(size) {
            assert_eq!(recorder.capture(block, 1, mean), block.len());
        }
        assert_eq!(recorder.stop_recording(lerp), Ok(data.clone()));
    }
}
