//! Locations of the FFmpeg and FFprobe binaries, and the builders made from them.
use vstd::prelude::*;
use std::sync::Arc;
use crate::text::owned;
use crate::builders::ffmpeg_builder::FFmpegBuilder;
use crate::builders::ffprobe_builder::FFprobeBuilder;

verus! {

/// Paths of the `ffmpeg` and `ffprobe` executables.
#[derive(Debug)]
pub struct FFMpeg {
    ffmpeg_path: String,
    ffprobe_path: String,
}

impl FFMpeg {
    /// The path of the `ffmpeg` binary.
    pub closed spec fn ffmpeg_path_view(&self) -> Seq<char> {
        self.ffmpeg_path@
    }

    /// The path of the `ffprobe` binary.
    pub closed spec fn ffprobe_path_view(&self) -> Seq<char> {
        self.ffprobe_path@
    }

    /// Creates a handle for the given binary paths.
    pub fn new(ffmpeg_path: &str, ffprobe_path: &str) -> (res: Self)
        ensures
            res.ffmpeg_path_view() == ffmpeg_path@,
            res.ffprobe_path_view() == ffprobe_path@,
    {
        FFMpeg { ffmpeg_path: owned(ffmpeg_path), ffprobe_path: owned(ffprobe_path) }
    }

    /// A builder for an `ffmpeg` command run with these binaries.
    pub fn ffmpeg_command_builder(&self) -> (res: FFmpegBuilder)
        ensures
            res@ == FFmpegBuilder::empty_view(*self),
    {
        FFmpegBuilder::new(Arc::new(self.clone()))
    }

    /// A builder for an `ffprobe` command run with these binaries.
    pub fn ffprobe_command_builder(&self) -> (res: FFprobeBuilder)
        ensures
            res@ == FFprobeBuilder::empty_view(*self),
    {
        FFprobeBuilder::new(Arc::new(self.clone()))
    }

    /// Get the path to the ffmpeg binary
    pub fn ffmpeg_path(&self) -> (res: &String)
        ensures
            res@ == self.ffmpeg_path_view(),
    {
        &self.ffmpeg_path
    }

    /// Get the path to the ffprobe binary
    pub fn ffprobe_path(&self) -> (res: &String)
        ensures
            res@ == self.ffprobe_path_view(),
    {
        &self.ffprobe_path
    }
}

impl Clone for FFMpeg {
    fn clone(&self) -> (res: Self)
        ensures
            res == *self,
    {
        FFMpeg { ffmpeg_path: self.ffmpeg_path.clone(), ffprobe_path: self.ffprobe_path.clone() }
    }
}

impl Default for FFMpeg {
    fn default() -> (res: Self)
        ensures
            res.ffmpeg_path_view() == Seq::<char>::empty(),
            res.ffprobe_path_view() == Seq::<char>::empty(),
    {
        FFMpeg { ffmpeg_path: String::new(), ffprobe_path: String::new() }
    }
}

} // verus!
