//! Questions answered from FFprobe's JSON result: which streams are video, audio or
//! subtitles, the video resolution and the overall bit rate.
//!
//! A stream is described here by what these questions read of it: its codec type, its
//! frame size and the fields that give its number of frames.
use vstd::prelude::*;
use crate::numbers::{parse_u64, parsed_unsigned};
use crate::text::str_eq;

verus! {

/// What the stream questions read of a probed stream.
#[derive(Debug)]
pub struct StreamSummary {
    /// The stream's codec type (`video`, `audio`, `subtitle`, ...), when given.
    pub codec_type: Option<String>,
    /// The frame width, when given.
    pub width: Option<u32>,
    /// The frame height, when given.
    pub height: Option<u32>,
    /// The `nb_frames` field, when given.
    pub nb_frames: Option<String>,
    /// The `NUMBER_OF_FRAMES` tag, when given.
    pub frames_tag: Option<String>,
    /// The `NUMBER_OF_FRAMES-eng` tag, when given.
    pub frames_tag_eng: Option<String>,
}

/// What the media questions read of a probed file's container: its size and its bit
/// rate, as FFprobe writes them.
#[derive(Debug)]
pub struct FormatSummary {
    /// The `size` field, when given.
    pub size: Option<String>,
    /// The `bit_rate` field, when given.
    pub bit_rate: Option<String>,
}

/// The stream's codec type is `kind`.
pub open spec fn has_type(s: StreamSummary, kind: Seq<char>) -> bool {
    s.codec_type matches Some(t) && t@ == kind
}

/// Whether the stream's codec type is `kind`.
fn is_of_type(s: &StreamSummary, kind: &str) -> (res: bool)
    ensures
        res == has_type(*s, kind@),
{
    match &s.codec_type {
        Some(t) => str_eq(t.as_str(), kind),
        None => false,
    }
}

/// The position of the first stream of codec type `kind`, if any.
pub fn first_stream_of_type(streams: &[StreamSummary], kind: &str) -> (res: Option<usize>)
    ensures
        match res {
            Some(i) => i < streams.len() && has_type(streams@[i as int], kind@) && forall|k: int|
                0 <= k < i ==> !has_type(#[trigger] streams@[k], kind@),
            None => forall|k: int| 0 <= k < streams.len() ==> !has_type(#[trigger] streams@[k], kind@),
        },
{
    let mut k: usize = 0;
    while k < streams.len()
        invariant
            k <= streams.len(),
            forall|m: int| 0 <= m < k ==> !has_type(#[trigger] streams@[m], kind@),
        decreases streams.len() - k,
    {
        if is_of_type(&streams[k], kind) {
            return Some(k);
        }
        k = k + 1;
    }
    None
}

/// The position of the first video stream, if any.
pub fn first_video_stream(streams: &[StreamSummary]) -> (res: Option<usize>)
    ensures
        match res {
            Some(i) => i < streams.len() && has_type(streams@[i as int], "video"@) && forall|k: int|
                0 <= k < i ==> !has_type(#[trigger] streams@[k], "video"@),
            None => forall|k: int| 0 <= k < streams.len() ==> !has_type(#[trigger] streams@[k], "video"@),
        },
{
    first_stream_of_type(streams, "video")
}

/// The position of the first audio stream, if any.
pub fn first_audio_stream(streams: &[StreamSummary]) -> (res: Option<usize>)
    ensures
        match res {
            Some(i) => i < streams.len() && has_type(streams@[i as int], "audio"@) && forall|k: int|
                0 <= k < i ==> !has_type(#[trigger] streams@[k], "audio"@),
            None => forall|k: int| 0 <= k < streams.len() ==> !has_type(#[trigger] streams@[k], "audio"@),
        },
{
    first_stream_of_type(streams, "audio")
}

/// The positions of the streams of codec type `kind`, in order.
pub open spec fn positions_of_type(streams: Seq<StreamSummary>, kind: Seq<char>) -> Seq<int>
    decreases streams.len(),
{
    if streams.len() == 0 {
        Seq::empty()
    } else if has_type(streams.last(), kind) {
        positions_of_type(streams.drop_last(), kind).push(streams.len() - 1)
    } else {
        positions_of_type(streams.drop_last(), kind)
    }
}

/// The positions of the streams of codec type `kind` (`video`, `audio`, `subtitle`), in
/// order.
pub fn streams_of_type(streams: &[StreamSummary], kind: &str) -> (res: Vec<usize>)
    ensures
        res@.map_values(|i: usize| i as int) == positions_of_type(streams@, kind@),
{
    let mut res: Vec<usize> = Vec::new();
    let mut k: usize = 0;
    while k < streams.len()
        invariant
            k <= streams.len(),
            res@.map_values(|i: usize| i as int) == positions_of_type(streams@.take(k as int), kind@),
        decreases streams.len() - k,
    {
        proof {
            let t = streams@.take(k + 1);
            assert(t.drop_last() =~= streams@.take(k as int));
            assert(t.last() == streams@[k as int]);
        }
        let ghost before = res@;
        if is_of_type(&streams[k], kind) {
            res.push(k);
            assert(res@.map_values(|i: usize| i as int) =~= before.map_values(|i: usize| i as int).push(
                k as int,
            ));
        }
        k = k + 1;
    }
    assert(streams@.take(streams.len() as int) =~= streams@);
    res
}

/// The resolution of the first video stream: its width and height, when it has a video
/// stream that gives both.
pub fn video_resolution(streams: &[StreamSummary]) -> (res: Option<(u32, u32)>)
    ensures
        match first_video_index(streams@) {
            Some(i) => match (streams@[i].width, streams@[i].height) {
                (Some(w), Some(h)) => res == Some((w, h)),
                _ => res is None,
            },
            None => res is None,
        },
{
    match first_video_stream(streams) {
        Some(i) => {
            proof {
                lemma_first_video_index(streams@, i as int);
            }
            match (streams[i].width, streams[i].height) {
                (Some(w), Some(h)) => Some((w, h)),
                _ => None,
            }
        },
        None => {
            proof {
                lemma_no_video_index(streams@);
            }
            None
        },
    }
}

/// The position of the first video stream, if any.
pub open spec fn first_video_index(streams: Seq<StreamSummary>) -> Option<int>
    decreases streams.len(),
{
    if streams.len() == 0 {
        None
    } else if has_type(streams[0], "video"@) {
        Some(0)
    } else {
        match first_video_index(streams.drop_first()) {
            Some(i) => Some(i + 1),
            None => None,
        }
    }
}

/// The first video stream found by searching is the one [`first_video_index`] names.
pub(crate) proof fn lemma_first_video_index(streams: Seq<StreamSummary>, i: int)
    requires
        0 <= i < streams.len(),
        has_type(streams[i], "video"@),
        forall|k: int| 0 <= k < i ==> !has_type(#[trigger] streams[k], "video"@),
    ensures
        first_video_index(streams) == Some(i),
    decreases i,
{
    if i > 0 {
        assert(!has_type(streams[0], "video"@));
        let rest = streams.drop_first();
        assert forall|k: int| 0 <= k < i - 1 implies !has_type(#[trigger] rest[k], "video"@) by {
            assert(rest[k] == streams[k + 1]);
        }
        assert(rest[i - 1] == streams[i]);
        lemma_first_video_index(rest, i - 1);
    }
}

/// With no video stream, there is no first one.
pub(crate) proof fn lemma_no_video_index(streams: Seq<StreamSummary>)
    requires
        forall|k: int| 0 <= k < streams.len() ==> !has_type(#[trigger] streams[k], "video"@),
    ensures
        first_video_index(streams) is None,
    decreases streams.len(),
{
    if streams.len() > 0 {
        assert(!has_type(streams[0], "video"@));
        let rest = streams.drop_first();
        assert forall|k: int| 0 <= k < rest.len() implies !has_type(#[trigger] rest[k], "video"@) by {
            assert(rest[k] == streams[k + 1]);
        }
        lemma_no_video_index(rest);
    }
}

/// The overall bit rate: the format's `bit_rate` read as a number, when it is given and
/// reads as one.
pub fn bit_rate(format_bit_rate: Option<&str>) -> (res: Option<u64>)
    ensures
        match format_bit_rate {
            Some(b) => match parsed_unsigned(b@, u64::MAX as nat) {
                Some(v) => res == Some(v as u64),
                None => res is None,
            },
            None => res is None,
        },
{
    match format_bit_rate {
        Some(b) => parse_u64(b),
        None => None,
    }
}

} // verus!
