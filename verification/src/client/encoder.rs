//! The encoder's logic: the FFmpeg arguments made from the server's template, and the
//! reading of FFmpeg's progress output.
use vstd::prelude::*;
use crate::client::gpu::GpuInfo;
use crate::builders::ffmpeg_builder::{FFmpegCommand, IoSpecView, command_args, finalized, input_args, output_args};
use crate::ffmpeg::FFMpeg;
use crate::builders::error::BuilderError;
use crate::builders::common::{ProbeFormat, StreamType};
use crate::builders::ffprobe_builder::FFprobeCommand;
use crate::text::decimal;
use crate::numbers::{i64_failure, i64_parse_failure, parse_i64, parsed_i64};
use crate::text::{
    chars_of, concat, owned, replace_all, replace_str, split_whitespace, split_ws, str_eq, string_of,
    strs, trim, trimmed,
};

verus! {

/// The words a text splits into under POSIX shell rules (shlex's `split`); `None` when
/// the text is malformed (an unterminated quote, a trailing backslash).
pub uninterp spec fn shell_words(s: Seq<char>) -> Option<Seq<Seq<char>>>;

/// Splits a text into words under shell quoting rules (shlex's `split`).
///
/// Trusted: the quoting rules are not written out here; the result is named
/// [`shell_words`] of the text, on which shlex's function depends alone.
#[verifier::external_body]
fn shlex_split(s: &str) -> (res: Option<Vec<String>>)
    ensures
        match shell_words(s@) {
            Some(w) => res matches Some(v) && strs(v@) == w,
            None => res is None,
        },
{
    shlex::split(s)
}

/// `s` between double quotes.
pub open spec fn quoted(s: Seq<char>) -> Seq<char> {
    seq!['"'] + s + seq!['"']
}

/// The command text made from a template: `{INPUT}` and `{OUTPUT}` become the quoted
/// input and output paths, and `{HWACCEL_CODE}` becomes `_` followed by the GPU's H.264
/// encoder name without `h264_` (so `h264_nvenc` gives `_nvenc`), in that order.
pub open spec fn command_text(template: Seq<char>, input: Seq<char>, output: Seq<char>, h264: Seq<char>) -> Seq<char> {
    replace_all(
        replace_all(replace_all(template, "{INPUT}"@, quoted(input)), "{OUTPUT}"@, quoted(output)),
        "{HWACCEL_CODE}"@,
        "_"@ + replace_all(h264, "h264_"@, Seq::empty()),
    )
}

/// The arguments from the split command text: the words, or the error
/// `Failed to parse FFmpeg command template` when the text could not be split.
pub fn args_from_words(words: Option<Vec<String>>) -> (res: Result<Vec<String>, String>)
    ensures
        match words {
            Some(w) => res matches Ok(v) && v == w,
            None => res matches Err(e) && e@ == "Failed to parse FFmpeg command template"@,
        },
{
    match words {
        Some(w) => Ok(w),
        None => Err(owned("Failed to parse FFmpeg command template")),
    }
}

/// Builds the FFmpeg arguments from the template (see [`command_text`]), split under
/// shell quoting rules.
pub fn build_ffmpeg_args(input_path: &str, output_path: &str, gpu_info: &GpuInfo, template: &str) -> (res:
    Result<Vec<String>, String>)
    ensures
        match shell_words(command_text(template@, input_path@, output_path@, gpu_info.encoder_h264@)) {
            Some(w) => res matches Ok(v) && strs(v@) == w,
            None => res matches Err(e) && e@ == "Failed to parse FFmpeg command template"@,
        },
{
    proof {
        reveal_strlit("\"");
        assert("\""@ =~= seq!['"']);
    }
    let qi = concat(concat("\"", input_path).as_str(), "\"");
    let qo = concat(concat("\"", output_path).as_str(), "\"");
    let codec = replace_str(gpu_info.encoder_h264.as_str(), "h264_", "");
    let hw = concat("_", codec.as_str());
    proof {
        assert(""@ =~= Seq::<char>::empty()) by {
            reveal_strlit("");
        }
    }
    let a = replace_str(template, "{INPUT}", qi.as_str());
    let b = replace_str(a.as_str(), "{OUTPUT}", qo.as_str());
    let command = replace_str(b.as_str(), "{HWACCEL_CODE}", hw.as_str());
    args_from_words(shlex_split(command.as_str()))
}

/// The arguments with `-progress pipe:2` put before the last one (the output file,
/// which FFmpeg wants last); no arguments stay none.
pub open spec fn with_progress(args: Seq<Seq<char>>) -> Seq<Seq<char>> {
    if args.len() == 0 {
        args
    } else {
        args.drop_last() + seq!["-progress"@, "pipe:2"@, args.last()]
    }
}

/// Puts `-progress pipe:2` before the last argument (see [`with_progress`]).
pub fn add_progress_args(args: Vec<String>) -> (res: Vec<String>)
    ensures
        strs(res@) == with_progress(strs(args@)),
{
    let mut args = args;
    if args.len() == 0 {
        return args;
    }
    let ghost before = args@;
    let last = args.pop().unwrap();
    let ghost rest = args@;
    args.push(owned("-progress"));
    args.push(owned("pipe:2"));
    args.push(last);
    proof {
        assert(before == rest.push(last));
        assert(strs(before).drop_last() =~= strs(rest));
        assert(strs(before).last() == last@);
        assert(strs(args@) =~= strs(rest) + seq!["-progress"@, "pipe:2"@, last@]);
    }
    args
}

/// Putting the progress arguments in keeps the output file last and adds exactly two
/// arguments.
pub proof fn progress_args_keep_output_last(args: Seq<Seq<char>>)
    requires
        args.len() > 0,
    ensures
        with_progress(args).len() == args.len() + 2,
        with_progress(args).last() == args.last(),
        with_progress(args).take(args.len() - 1) == args.drop_last(),
        with_progress(args)[args.len() - 1] == "-progress"@,
        with_progress(args)[args.len() as int] == "pipe:2"@,
{
    assert(with_progress(args).take(args.len() - 1) =~= args.drop_last());
}

/// A text cut at its first `c`: the part before and the part after; `None` when `c`
/// does not occur (std's `str::split_once` for a `char`).
pub open spec fn split_once_at(s: Seq<char>, c: char) -> Option<(Seq<char>, Seq<char>)>
    decreases s.len(),
{
    if s.len() == 0 {
        None
    } else if s[0] == c {
        Some((Seq::empty(), s.drop_first()))
    } else {
        match split_once_at(s.drop_first(), c) {
            Some((a, b)) => Some((seq![s[0]] + a, b)),
            None => None,
        }
    }
}

/// Cuts a text at its first `c` (see [`split_once_at`]).
fn split_once(s: &str, c: char) -> (res: Option<(String, String)>)
    ensures
        match split_once_at(s@, c) {
            Some((a, b)) => res matches Some((x, y)) && x@ == a && y@ == b,
            None => res is None,
        },
{
    let cs = chars_of(s);
    let mut i: usize = 0;
    assert(s@.skip(0) =~= s@);
    proof {
        match split_once_at(s@, c) {
            Some((a, b)) => {
                assert(s@.take(0) + a =~= a);
            },
            None => {},
        }
    }
    while i < cs.len()
        invariant
            cs@ == s@,
            i <= cs.len(),
            forall|k: int| 0 <= k < i ==> cs@[k] != c,
            split_once_at(s@, c) == match split_once_at(s@.skip(i as int), c) {
                Some((a, b)) => Some((s@.take(i as int) + a, b)),
                None => None,
            },
        decreases cs.len() - i,
    {
        let ghost rest = s@.skip(i as int);
        assert(rest[0] == cs@[i as int]);
        if cs[i] == c {
            let (x, y) = cs.as_slice().split_at(i);
            let (_, y2) = y.split_at(1);
            assert(x@ =~= s@.take(i as int));
            assert(y2@ =~= rest.drop_first());
            assert(s@.take(i as int) + Seq::<char>::empty() =~= s@.take(i as int));
            return Some((string_of(x), string_of(y2)));
        }
        assert(rest.drop_first() =~= s@.skip(i + 1));
        proof {
            match split_once_at(rest.drop_first(), c) {
                Some((a, b)) => {
                    assert(s@.take(i + 1) + a =~= s@.take(i as int) + (seq![rest[0]] + a));
                },
                None => {},
            }
        }
        i = i + 1;
    }
    assert(s@.skip(i as int) =~= Seq::<char>::empty());
    None
}

/// What one line of FFmpeg's `-progress` output says.
#[derive(Debug)]
pub enum ProgressLine {
    /// The number of frames done.
    Frame(i64),
    /// The frames per second, as written.
    Fps(String),
    /// The bitrate in kbit/s, as written without its `kbits/s` unit.
    Bitrate(String),
    /// The speed relative to real time, as written without its `x`.
    Speed(String),
    /// A progress marker (`continue` or `end`, or another word).
    Marker(String),
    /// A line without a known key.
    Ignored,
}

/// The frame count written in a `frame=` value: its first word read as an `i64`, or 0
/// when there is none or it does not read as one (the value may be a whole status line
/// like ` 2957 fps=410 q=-0.0`).
pub open spec fn frame_value(value: Seq<char>) -> int {
    let words = split_ws(value);
    let word = if words.len() > 0 { words[0] } else { "0"@ };
    match parsed_i64(word) {
        Some(n) => n,
        None => 0,
    }
}

/// Reads one line of FFmpeg's progress output: the line, without surrounding white
/// space, is cut at its first `=` into a key and a value (also trimmed); the keys
/// `frame`, `fps`, `bitrate`, `speed` and `progress` are known.
pub fn read_progress_line(line: &str) -> (res: ProgressLine)
    ensures
        match split_once_at(trimmed(line@), '=') {
            None => res is Ignored,
            Some((key, raw)) => {
                let value = trimmed(raw);
                if key == "frame"@ {
                    res matches ProgressLine::Frame(n) && n == frame_value(value)
                } else if key == "fps"@ {
                    res matches ProgressLine::Fps(v) && v@ == value
                } else if key == "bitrate"@ {
                    res matches ProgressLine::Bitrate(v) && v@ == trimmed(
                        replace_all(value, "kbits/s"@, Seq::empty()),
                    )
                } else if key == "speed"@ {
                    res matches ProgressLine::Speed(v) && v@ == trimmed(
                        replace_all(value, "x"@, Seq::empty()),
                    )
                } else if key == "progress"@ {
                    res matches ProgressLine::Marker(v) && v@ == value
                } else {
                    res is Ignored
                }
            },
        },
{
    proof {
        reveal_strlit("");
        reveal_strlit("0");
        assert(""@ =~= Seq::<char>::empty());
    }
    let t = trim(line);
    match split_once(t.as_str(), '=') {
        None => ProgressLine::Ignored,
        Some((key, raw)) => {
            let value = trim(raw.as_str());
            if str_eq(key.as_str(), "frame") {
                let words = split_whitespace(value.as_str());
                let n: i64 = if words.len() > 0 {
                    assert(strs(words@)[0] == words@[0]@);
                    match parse_i64(words[0].as_str()) {
                        Some(n) => n,
                        None => 0,
                    }
                } else {
                    match parse_i64("0") {
                        Some(n) => n,
                        None => 0,
                    }
                };
                ProgressLine::Frame(n)
            } else if str_eq(key.as_str(), "fps") {
                ProgressLine::Fps(value)
            } else if str_eq(key.as_str(), "bitrate") {
                let v = replace_str(value.as_str(), "kbits/s", "");
                ProgressLine::Bitrate(trim(v.as_str()))
            } else if str_eq(key.as_str(), "speed") {
                let v = replace_str(value.as_str(), "x", "");
                ProgressLine::Speed(trim(v.as_str()))
            } else if str_eq(key.as_str(), "progress") {
                ProgressLine::Marker(value)
            } else {
                ProgressLine::Ignored
            }
        },
    }
}

/// The name of the image file a frame of `video_path` is extracted to: `frame_`, the
/// video's file stem (`video` when it has no file name) and `.jpg`.
pub fn frame_file_name(video_path: &str) -> (res: String)
    ensures
        res@ == "frame_"@ + match crate::server::files::file_name_of_path(video_path@) {
            Some(n) => crate::server::files::stem_of(n),
            None => "video"@,
        } + ".jpg"@,
{
    let stem = match crate::server::files::path_file_stem(video_path) {
        Some(s) => s,
        None => owned("video"),
    };
    let mut res = concat("frame_", stem.as_str());
    crate::text::push_str(&mut res, ".jpg");
    res
}

/// The command that extracts one frame of `video_path` into the JPEG file `output_path`,
/// seeking to `start_time` first: `-vframes 1 -q:v 2 -y`, then `-ss` and the time,
/// `-i` and the video, and the output. It is always built.
pub fn frame_extraction_command(ffmpeg: &FFMpeg, video_path: &str, start_time: &str, output_path: &str) -> (res: Result<FFmpegCommand, BuilderError>)
    ensures
        res matches Ok(cmd) && cmd@.ffmpeg == *ffmpeg && cmd@.args == seq![
            "-vframes"@, "1"@, "-q:v"@, "2"@, "-y"@, "-ss"@, start_time@, "-i"@, video_path@,
            output_path@,
        ],
{
    let b = ffmpeg.ffmpeg_command_builder();
    let b = b.input(video_path)?;
    let b = b.start_time(start_time)?;
    let b = b.output(output_path)?;
    let b = b.raw_arg("-vframes").raw_arg("1").raw_arg("-q:v").raw_arg("2").overwrite(true);
    let ghost v = finalized(b@);
    let ghost input = IoSpecView { path: video_path@, options: seq!["-ss"@, start_time@] };
    let ghost output = IoSpecView { path: output_path@, options: Seq::empty() };
    assert(v.inputs =~= seq![input]);
    assert(v.outputs =~= seq![output]);
    assert(input_args(v.inputs) =~= seq!["-ss"@, start_time@, "-i"@, video_path@]) by {
        assert(v.inputs.drop_last() =~= Seq::<IoSpecView>::empty());
        assert(input_args(v.inputs.drop_last()) =~= Seq::<Seq<char>>::empty());
    }
    assert(output_args(v.outputs) =~= seq![output_path@]) by {
        assert(v.outputs.drop_last() =~= Seq::<IoSpecView>::empty());
        assert(output_args(v.outputs.drop_last()) =~= Seq::<Seq<char>>::empty());
    }
    b.build()
}

/// The probe that reads the container format of `video_path`, from which its duration
/// is taken: `-print_format json -show_format -loglevel 16 -hide_banner -i` and the video.
pub fn duration_probe_command(ffmpeg: &FFMpeg, video_path: &str) -> (res: Result<FFprobeCommand, BuilderError>)
    ensures
        res matches Ok(cmd) && cmd@.ffmpeg == *ffmpeg && cmd@.output_format == ProbeFormat::JSON
            && cmd@.args == seq![
            "-print_format"@, "json"@, "-show_format"@, "-loglevel"@, "16"@, "-hide_banner"@,
            "-i"@, video_path@,
        ],
{
    let b = ffmpeg.ffprobe_command_builder().input(video_path)?;
    let b = b.show_format().output_format(ProbeFormat::JSON).log_level(16).hide_banner();
    proof {
        reveal_strlit("16");
        reveal_with_fuel(decimal, 2);
        assert(decimal(1) =~= seq!['1']);
        assert(decimal(16) =~= "16"@);
    }
    b.build()
}

/// The probe that counts the packets of the video stream of `video_path`, from which its
/// number of frames is taken: `-print_format json -select_streams v -count_packets
/// -show_streams -loglevel 16 -hide_banner -i` and the video.
pub fn frame_count_probe_command(ffmpeg: &FFMpeg, video_path: &str) -> (res: Result<FFprobeCommand, BuilderError>)
    ensures
        res matches Ok(cmd) && cmd@.ffmpeg == *ffmpeg && cmd@.output_format == ProbeFormat::JSON
            && cmd@.args == seq![
            "-print_format"@, "json"@, "-select_streams"@, "v"@, "-count_packets"@,
            "-show_streams"@, "-loglevel"@, "16"@, "-hide_banner"@, "-i"@, video_path@,
        ],
{
    let b = ffmpeg.ffprobe_command_builder().input(video_path)?;
    let b = b.select_streams(StreamType::Video).count_packets().show_streams();
    let b = b.output_format(ProbeFormat::JSON).log_level(16).hide_banner();
    proof {
        reveal_strlit("16");
        reveal_with_fuel(decimal, 2);
        assert(decimal(1) =~= seq!['1']);
        assert(decimal(16) =~= "16"@);
    }
    b.build()
}

/// The number of frames of a video from the packet count of the first probed stream:
/// an error when the probe gave none, or, when it does not read as an integer,
/// `Failed to parse frame count: ` and the reason std's parser gives.
pub fn frame_count_from_packets(packets: Option<&str>) -> (res: Result<i64, String>)
    ensures
        match packets {
            None => res matches Err(e) && e@ == "No packet count found in probe result"@,
            Some(p) => match parsed_i64(p@) {
                Some(n) => res == Ok::<i64, String>(n as i64),
                None => res matches Err(e) && i64_failure(p@) matches Some(k) && e@
                    == "Failed to parse frame count: "@ + k.text(),
            },
        },
{
    match packets {
        None => Err(owned("No packet count found in probe result")),
        Some(p) => match parse_i64(p) {
            Some(n) => Ok(n),
            None => {
                let kind = i64_parse_failure(p);
                let reason = kind.message();
                Err(concat("Failed to parse frame count: ", reason.as_str()))
            },
        },
    }
}

/// Whether a progress marker makes the accumulated progress be reported: the marker is
/// `continue` or `end` and some frames are done.
pub fn reports_progress(marker: &str, frame: i64) -> (res: bool)
    ensures
        res == ((marker@ == "continue"@ || marker@ == "end"@) && frame > 0),
{
    (str_eq(marker, "continue") || str_eq(marker, "end")) && frame > 0
}

} // verus!
