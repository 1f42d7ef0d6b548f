//! Audio capture buffering and incremental transcription control for a
//! dictation tool: the sample buffer, the resampler, the recording
//! controller and the transcription engine's protocol.

pub mod buffer;
pub mod capture;
pub mod chunk;
pub mod dictation;
pub mod engine;
pub mod models;
pub mod recorder;
pub mod recorder_laws;
pub mod resample;
pub mod settings;
pub mod text;
