//! FFmpeg and FFprobe command builders.
pub mod common;
pub mod error;
pub mod ffmpeg_builder;
pub mod ffprobe_builder;
pub mod probe_output;
pub mod probe_result;
