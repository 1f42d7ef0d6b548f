use hyprwhisper::capture::{
    downmix, select_config, CaptureError, ConfigRange, DeviceConfig, REQUIRED_SAMPLE_RATE,
    STARTUP_TIMEOUT_MS,
};

fn mean(frame: &[f32], channels: u16) -> f32 {
    frame.iter().sum::<f32>() / channels as f32
}

fn range(min: u32, max: u32, channels: u16) -> ConfigRange {
    ConfigRange { min_sample_rate: min, max_sample_rate: max, channels }
}

#[test]
fn constants_have_their_values() {
    assert_eq!(REQUIRED_SAMPLE_RATE, 16000);
    assert_eq!(STARTUP_TIMEOUT_MS, 5000);
}

#[test]
fn a_range_that_includes_the_required_rate_gives_mono_at_that_rate() {
    let fallback = Some(DeviceConfig { sample_rate: 48000, channels: 2 });
    let direct = Some(DeviceConfig { sample_rate: 16000, channels: 1 });
    assert_eq!(select_config(&[range(8000, 48000, 2)], fallback), direct);
    assert_eq!(select_config(&[range(16000, 16000, 2)], fallback), direct);
    assert_eq!(select_config(&[range(16000, 48000, 1)], None), direct);
    assert_eq!(select_config(&[range(8000, 16000, 6)], fallback), direct);
    assert_eq!(
        select_config(&[range(44100, 48000, 2), range(8000, 22050, 1)], fallback),
        direct
    );
}

#[test]
fn without_such_a_range_the_default_is_taken() {
    let fallback = Some(DeviceConfig { sample_rate: 48000, channels: 2 });
    assert_eq!(select_config(&[], fallback), fallback);
    assert_eq!(select_config(&[range(44100, 48000, 2)], fallback), fallback);
    assert_eq!(select_config(&[range(16001, 48000, 2)], fallback), fallback);
    assert_eq!(select_config(&[range(8000, 15999, 1)], fallback), fallback);
    assert_eq!(select_config(&[range(48000, 8000, 1)], fallback), fallback);
    assert_eq!(select_config(&[range(44100, 48000, 2)], None), None);
    assert_eq!(select_config(&[], None), None);
}

#[test]
fn mono_data_passes_through() {
    let data = [0.5f32, -0.25, 0.125];
    assert_eq!(downmix(&data, 1, mean), vec![0.5, -0.25, 0.125]);
    assert_eq!(downmix(&data, 0, mean), vec![0.5, -0.25, 0.125]);
    assert_eq!(downmix(&[], 1, mean), Vec::<f32>::new());
}

#[test]
fn stereo_frames_are_averaged() {
    let data = [1.0f32, 0.0, 0.5, 0.5, -1.0, 1.0];
    assert_eq!(downmix(&data, 2, mean), vec![0.5, 0.5, 0.0]);
    assert_eq!(downmix(&[], 2, mean), Vec::<f32>::new());
}

#[test]
fn a_block_that_ends_inside_a_frame_gives_a_last_sample() {
    let data = [3.0f32, 3.0, 3.0, 6.0];
    assert_eq!(downmix(&data, 3, mean), vec![3.0, 2.0]);
    let data = [4.0f32];
    assert_eq!(downmix(&data, 4, mean), vec![1.0]);
}

#[test]
fn frames_are_taken_in_order_and_whole() {
    let seen = std::cell::RefCell::new(Vec::<Vec<u8>>::new());
    let data = [1u8, 2, 3, 4, 5, 6, 7];
    let out = downmix(&data, 3, |frame: &[u8], channels: u16| {
        assert_eq!(channels, 3);
        seen.borrow_mut().push(frame.to_vec());
        frame[0]
    });
    assert_eq!(out, vec![1, 4, 7]);
    assert_eq!(seen.into_inner(), vec![vec![1, 2, 3], vec![4, 5, 6], vec![7]]);
}

#[test]
fn capture_errors_keep_the_driver_message() {
    assert_eq!(CaptureError::NoDeviceAvailable.message(), "No input device available");
    assert_eq!(
        CaptureError::EnumerationFailed("device busy".to_string()).message(),
        "Failed to get supported configs: device busy"
    );
    assert_eq!(
        CaptureError::StreamBuildError("unsupported format".to_string()).message(),
        "Failed to build input stream: unsupported format"
    );
    assert_eq!(
        CaptureError::StreamPlayError("".to_string()).message(),
        "Failed to play stream: "
    );
    assert_eq!(CaptureError::StartupTimeout.message(), "Recording failed to start in time");
}
