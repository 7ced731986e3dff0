//! Fluent builder for FFmpeg command lines.
//!
//! A builder collects global options, options placed before the inputs, the inputs
//! with their own options, options placed after the inputs, and the outputs with
//! their own options. Options given while an output is open go to that output;
//! otherwise most of them go to the options after the inputs.
use vstd::prelude::*;
use std::sync::Arc;
use crate::builders::common::{AudioCodec, ChannelLayout, ContainerFormat, HardwareAccel, PixelFormat, Preset, ScaleAlgorithm, StreamType, VideoCodec};
use crate::builders::error::BuilderError;
use crate::ffmpeg::FFMpeg;
use crate::text::{clone_strings, concat, lemma_strs_push, decimal, decimal_string, join, join_strings, owned, push_char, push_decimal, push_str, str_eq, strs};

verus! {

/// An input or an output file with its options, as a mathematical value.
pub struct IoSpecView {
    pub path: Seq<char>,
    pub options: Seq<Seq<char>>,
}

/// The state of an [`FFmpegBuilder`] as a mathematical value.
pub struct BuilderView {
    pub ffmpeg: FFMpeg,
    pub global: Seq<Seq<char>>,
    pub pre: Seq<Seq<char>>,
    pub inputs: Seq<IoSpecView>,
    pub post: Seq<Seq<char>>,
    pub outputs: Seq<IoSpecView>,
    pub current_input: Option<IoSpecView>,
    pub current_output: Option<IoSpecView>,
}

/// `opts` appended to the open output's options, or to the options after the inputs
/// when no output is open.
pub open spec fn with_output_opts(v: BuilderView, opts: Seq<Seq<char>>) -> BuilderView {
    match v.current_output {
        Some(o) => BuilderView {
            current_output: Some(IoSpecView { path: o.path, options: o.options + opts }),
            ..v
        },
        None => BuilderView { post: v.post + opts, ..v },
    }
}

/// `opts` appended to the open output's options; unchanged when no output is open.
pub open spec fn with_open_output_opts(v: BuilderView, opts: Seq<Seq<char>>) -> BuilderView {
    match v.current_output {
        Some(o) => BuilderView {
            current_output: Some(IoSpecView { path: o.path, options: o.options + opts }),
            ..v
        },
        None => v,
    }
}

/// `opts` appended to the open input's options; unchanged when no input is open.
pub open spec fn with_input_opts(v: BuilderView, opts: Seq<Seq<char>>) -> BuilderView {
    match v.current_input {
        Some(i) => BuilderView {
            current_input: Some(IoSpecView { path: i.path, options: i.options + opts }),
            ..v
        },
        None => v,
    }
}

/// Adds `filter` to a filter chain given by `flag` in `args`: appended with a comma to
/// the value after the first occurrence of `flag`, or, when `flag` does not occur,
/// `flag` and `filter` appended at the end. A `flag` that is the last argument is left
/// as it is.
pub open spec fn appended_filter(args: Seq<Seq<char>>, flag: Seq<char>, filter: Seq<char>) -> Seq<
    Seq<char>,
> {
    match args.index_of_first(flag) {
        Some(p) => if p + 1 < args.len() {
            args.update(p + 1, args[p + 1] + seq![','] + filter)
        } else {
            args
        },
        None => args + seq![flag, filter],
    }
}

/// Filters added one after the other to a chain that is not there yet end up in one
/// argument after the chain's flag, joined with a comma.
pub proof fn filters_join_with_commas(
    args: Seq<Seq<char>>,
    flag: Seq<char>,
    first: Seq<char>,
    second: Seq<char>,
)
    requires
        !args.contains(flag),
    ensures
        appended_filter(appended_filter(args, flag, first), flag, second) == args + seq![
            flag,
            first + seq![','] + second,
        ],
{
    let a = args + seq![flag, first];
    args.index_of_first_ensures(flag);
    a.index_of_first_ensures(flag);
    assert(a[args.len() as int] == flag);
    assert(a.contains(flag));
    match a.index_of_first(flag) {
        Some(p) => {
            if p < args.len() {
                assert(a[p] == args[p]);
                assert(args.contains(flag));
            }
            if p > args.len() {
                assert(a[args.len() as int] != flag);
            }
        },
        None => {},
    }
    let q: int = args.len() as int + 1;
    assert(a.update(q, a[q] + seq![','] + second) =~= args + seq![
        flag,
        first + seq![','] + second,
    ]);
}

/// `filter` added to the chain named `flag` of the open output, or of the options after
/// the inputs when no output is open.
pub open spec fn with_filter(v: BuilderView, flag: Seq<char>, filter: Seq<char>) -> BuilderView {
    match v.current_output {
        Some(o) => BuilderView {
            current_output: Some(
                IoSpecView { path: o.path, options: appended_filter(o.options, flag, filter) },
            ),
            ..v
        },
        None => BuilderView { post: appended_filter(v.post, flag, filter), ..v },
    }
}

/// The builder state after the open input and output are closed.
pub open spec fn finalized(v: BuilderView) -> BuilderView {
    BuilderView {
        inputs: match v.current_input {
            Some(i) => v.inputs.push(i),
            None => v.inputs,
        },
        outputs: match v.current_output {
            Some(o) => v.outputs.push(o),
            None => v.outputs,
        },
        current_input: None,
        current_output: None,
        ..v
    }
}

/// The arguments contributed by the inputs: each input's options, then `-i` and its path.
pub open spec fn input_args(inputs: Seq<IoSpecView>) -> Seq<Seq<char>>
    decreases inputs.len(),
{
    if inputs.len() == 0 {
        Seq::empty()
    } else {
        input_args(inputs.drop_last()) + inputs.last().options + seq!["-i"@, inputs.last().path]
    }
}

/// The arguments contributed by the outputs: each output's options, then its path.
pub open spec fn output_args(outputs: Seq<IoSpecView>) -> Seq<Seq<char>>
    decreases outputs.len(),
{
    if outputs.len() == 0 {
        Seq::empty()
    } else {
        output_args(outputs.drop_last()) + outputs.last().options + seq![outputs.last().path]
    }
}

/// The full argument list of a command built from a finalized builder state.
pub open spec fn command_args(v: BuilderView) -> Seq<Seq<char>> {
    v.global + v.pre + input_args(v.inputs) + v.post + output_args(v.outputs)
}

/// The codec name FFmpeg uses for `codec` encoded on the hardware `hw`, when there is one.
pub open spec fn hw_codec_name(codec: VideoCodec, hw: HardwareAccel) -> Option<Seq<char>> {
    match (codec, hw) {
        (VideoCodec::H264, HardwareAccel::NVENC) => Some("h264_nvenc"@),
        (VideoCodec::H265, HardwareAccel::NVENC) => Some("hevc_nvenc"@),
        (VideoCodec::H264, HardwareAccel::QSV) => Some("h264_qsv"@),
        (VideoCodec::H265, HardwareAccel::QSV) => Some("hevc_qsv"@),
        (VideoCodec::H264, HardwareAccel::VideoToolbox) => Some("h264_videotoolbox"@),
        (VideoCodec::H265, HardwareAccel::VideoToolbox) => Some("hevc_videotoolbox"@),
        (VideoCodec::H264, HardwareAccel::VAAPI) => Some("h264_vaapi"@),
        (VideoCodec::H265, HardwareAccel::VAAPI) => Some("hevc_vaapi"@),
        (VideoCodec::H264, HardwareAccel::AMF) => Some("h264_amf"@),
        (VideoCodec::H265, HardwareAccel::AMF) => Some("hevc_amf"@),
        _ => None,
    }
}

/// The video codec name used for `codec` on `hw`: the hardware encoder when there is
/// one, else the software codec.
pub open spec fn hw_codec_text(codec: VideoCodec, hw: HardwareAccel) -> Seq<char> {
    match hw_codec_name(codec, hw) {
        Some(name) => name,
        None => codec.text(),
    }
}

/// One call on a builder, by the way it changes the builder's state. Every builder
/// method's contract states the change of one such step:
/// - `Global`: `overwrite`, `log_level`, `hide_banner`, `raw_arg`, `raw_args`;
/// - `BeforeInputs`: `hardware_accel`, `hardware_device`;
/// - `Input`: `input`; `InputOptions`: `input_format`, `start_time`, `duration`,
///   `end_time`, `input_framerate`;
/// - `Output`: `output`; `OutputOptions`: the codec, quality, stream, audio, format,
///   `map`, `select_stream` and `metadata` calls; `OpenOutputOptions`: `two_pass_first`,
///   `two_pass_second`, `hls_options`, `dash_options`;
/// - `Filter`: `video_filter`, `audio_filter`, `resolution`, `width`, `height`;
/// - `AfterInputs`: `filter_complex`.
pub enum BuilderStep {
    Global(Seq<Seq<char>>),
    BeforeInputs(Seq<Seq<char>>),
    Input(Seq<char>),
    InputOptions(Seq<Seq<char>>),
    Output(Seq<char>),
    OutputOptions(Seq<Seq<char>>),
    OpenOutputOptions(Seq<Seq<char>>),
    Filter(Seq<char>, Seq<char>),
    AfterInputs(Seq<Seq<char>>),
}

/// The builder state after one step.
pub open spec fn apply_step(v: BuilderView, step: BuilderStep) -> BuilderView {
    match step {
        BuilderStep::Global(a) => BuilderView { global: v.global + a, ..v },
        BuilderStep::BeforeInputs(a) => BuilderView { pre: v.pre + a, ..v },
        BuilderStep::Input(p) => BuilderView {
            inputs: match v.current_input {
                Some(i) => v.inputs.push(i),
                None => v.inputs,
            },
            current_input: Some(IoSpecView { path: p, options: Seq::empty() }),
            ..v
        },
        BuilderStep::InputOptions(a) => with_input_opts(v, a),
        BuilderStep::Output(p) => BuilderView {
            inputs: finalized(v).inputs,
            outputs: finalized(v).outputs,
            current_input: None,
            current_output: Some(IoSpecView { path: p, options: Seq::empty() }),
            ..v
        },
        BuilderStep::OutputOptions(a) => with_output_opts(v, a),
        BuilderStep::OpenOutputOptions(a) => with_open_output_opts(v, a),
        BuilderStep::Filter(flag, f) => with_filter(v, flag, f),
        BuilderStep::AfterInputs(a) => BuilderView { post: v.post + a, ..v },
    }
}

/// The builder state after the steps, in order.
pub open spec fn after_steps(v: BuilderView, steps: Seq<BuilderStep>) -> BuilderView
    decreases steps.len(),
{
    if steps.len() == 0 {
        v
    } else {
        apply_step(after_steps(v, steps.drop_last()), steps.last())
    }
}

/// What building from a builder state gives: `NoInput` without an input, then
/// `NoOutput` without an output, else the command's arguments.
pub open spec fn built_args(v: BuilderView) -> Result<Seq<Seq<char>>, BuilderError> {
    let w = finalized(v);
    if w.inputs.len() == 0 {
        Err(BuilderError::NoInput)
    } else if w.outputs.len() == 0 {
        Err(BuilderError::NoOutput)
    } else {
        Ok(command_args(w))
    }
}

/// The arguments of the steps of one kind, in order.
pub open spec fn global_args(steps: Seq<BuilderStep>) -> Seq<Seq<char>>
    decreases steps.len(),
{
    if steps.len() == 0 {
        Seq::empty()
    } else {
        global_args(steps.drop_last()) + match steps.last() {
            BuilderStep::Global(a) => a,
            _ => Seq::empty(),
        }
    }
}

/// The arguments of the steps placed before the inputs, in order.
pub open spec fn before_input_args(steps: Seq<BuilderStep>) -> Seq<Seq<char>>
    decreases steps.len(),
{
    if steps.len() == 0 {
        Seq::empty()
    } else {
        before_input_args(steps.drop_last()) + match steps.last() {
            BuilderStep::BeforeInputs(a) => a,
            _ => Seq::empty(),
        }
    }
}

/// The paths given to `input`, in order.
pub open spec fn input_paths(steps: Seq<BuilderStep>) -> Seq<Seq<char>>
    decreases steps.len(),
{
    if steps.len() == 0 {
        Seq::empty()
    } else {
        input_paths(steps.drop_last()) + match steps.last() {
            BuilderStep::Input(p) => seq![p],
            _ => Seq::empty(),
        }
    }
}

/// The paths given to `output`, in order.
pub open spec fn output_paths(steps: Seq<BuilderStep>) -> Seq<Seq<char>>
    decreases steps.len(),
{
    if steps.len() == 0 {
        Seq::empty()
    } else {
        output_paths(steps.drop_last()) + match steps.last() {
            BuilderStep::Output(p) => seq![p],
            _ => Seq::empty(),
        }
    }
}

/// The paths of inputs or outputs.
pub open spec fn io_paths(s: Seq<IoSpecView>) -> Seq<Seq<char>> {
    s.map_values(|x: IoSpecView| x.path)
}

/// The paths of inputs or outputs, with the open one (if any) last.
pub open spec fn all_paths(s: Seq<IoSpecView>, open: Option<IoSpecView>) -> Seq<Seq<char>> {
    match open {
        Some(x) => io_paths(s).push(x.path),
        None => io_paths(s),
    }
}

/// Whether an input is open after the steps: an `input` call came after the last
/// `output` call.
pub open spec fn input_open(steps: Seq<BuilderStep>) -> bool
    decreases steps.len(),
{
    if steps.len() == 0 {
        false
    } else {
        match steps.last() {
            BuilderStep::Input(_) => true,
            BuilderStep::Output(_) => false,
            _ => input_open(steps.drop_last()),
        }
    }
}

/// Whether an output is open after the steps: some `output` call was made.
pub open spec fn output_open(steps: Seq<BuilderStep>) -> bool
    decreases steps.len(),
{
    if steps.len() == 0 {
        false
    } else {
        match steps.last() {
            BuilderStep::Output(_) => true,
            _ => output_open(steps.drop_last()),
        }
    }
}

/// `s` with `a` appended to its last element (unchanged when empty).
pub open spec fn extend_last(s: Seq<Seq<Seq<char>>>, a: Seq<Seq<char>>) -> Seq<Seq<Seq<char>>> {
    if s.len() == 0 {
        s
    } else {
        s.update(s.len() - 1, s.last() + a)
    }
}

/// `s` with a filter added to its last element's chain (unchanged when empty).
pub open spec fn filter_last(s: Seq<Seq<Seq<char>>>, flag: Seq<char>, f: Seq<char>) -> Seq<Seq<Seq<char>>> {
    if s.len() == 0 {
        s
    } else {
        s.update(s.len() - 1, appended_filter(s.last(), flag, f))
    }
}

/// The options of each input, in the order of the inputs: the input options given while
/// that input was the open one, in call order.
pub open spec fn input_options(steps: Seq<BuilderStep>) -> Seq<Seq<Seq<char>>>
    decreases steps.len(),
{
    if steps.len() == 0 {
        Seq::empty()
    } else {
        let r = input_options(steps.drop_last());
        match steps.last() {
            BuilderStep::Input(_) => r.push(Seq::empty()),
            BuilderStep::InputOptions(a) => if input_open(steps.drop_last()) {
                extend_last(r, a)
            } else {
                r
            },
            _ => r,
        }
    }
}

/// The options of each output, in the order of the outputs: the output options and
/// filters given while that output was the open one, in call order, the filters of one
/// kind merged into one chain.
pub open spec fn output_options(steps: Seq<BuilderStep>) -> Seq<Seq<Seq<char>>>
    decreases steps.len(),
{
    if steps.len() == 0 {
        Seq::empty()
    } else {
        let r = output_options(steps.drop_last());
        match steps.last() {
            BuilderStep::Output(_) => r.push(Seq::empty()),
            BuilderStep::OutputOptions(a) => extend_last(r, a),
            BuilderStep::OpenOutputOptions(a) => extend_last(r, a),
            BuilderStep::Filter(flag, f) => filter_last(r, flag, f),
            _ => r,
        }
    }
}

/// The options placed after the inputs: `filter_complex` calls, and output options and
/// filters given before any output was opened (two-pass and streaming options then add
/// nothing), in call order, the filters of one kind merged into one chain.
pub open spec fn after_input_args(steps: Seq<BuilderStep>) -> Seq<Seq<char>>
    decreases steps.len(),
{
    if steps.len() == 0 {
        Seq::empty()
    } else {
        let r = after_input_args(steps.drop_last());
        let open = output_open(steps.drop_last());
        match steps.last() {
            BuilderStep::AfterInputs(a) => r + a,
            BuilderStep::OutputOptions(a) => if open { r } else { r + a },
            BuilderStep::Filter(flag, f) => if open { r } else { appended_filter(r, flag, f) },
            _ => r,
        }
    }
}

/// The options of inputs or outputs, with the open one (if any) last.
pub open spec fn all_options(s: Seq<IoSpecView>, open: Option<IoSpecView>) -> Seq<Seq<Seq<char>>> {
    let o = s.map_values(|x: IoSpecView| x.options);
    match open {
        Some(x) => o.push(x.options),
        None => o,
    }
}

/// Opening an input or output keeps the options gathered so far.
proof fn lemma_all_options_push(s: Seq<IoSpecView>, x: IoSpecView)
    ensures
        all_options(s.push(x), None) == all_options(s, Some(x)),
{
    assert(s.push(x).map_values(|y: IoSpecView| y.options) =~= s.map_values(|y: IoSpecView| y.options).push(
        x.options,
    ));
}

/// What a sequence of steps makes of a builder: the options and paths accumulate in
/// call order.
proof fn lemma_after_steps(f: FFMpeg, steps: Seq<BuilderStep>)
    ensures
        after_steps(FFmpegBuilder::empty_view(f), steps).ffmpeg == f,
        after_steps(FFmpegBuilder::empty_view(f), steps).global == global_args(steps),
        after_steps(FFmpegBuilder::empty_view(f), steps).pre == before_input_args(steps),
        all_paths(
            after_steps(FFmpegBuilder::empty_view(f), steps).inputs,
            after_steps(FFmpegBuilder::empty_view(f), steps).current_input,
        ) == input_paths(steps),
        all_paths(
            after_steps(FFmpegBuilder::empty_view(f), steps).outputs,
            after_steps(FFmpegBuilder::empty_view(f), steps).current_output,
        ) == output_paths(steps),
        (after_steps(FFmpegBuilder::empty_view(f), steps).current_input is Some) == input_open(steps),
        (after_steps(FFmpegBuilder::empty_view(f), steps).current_output is Some) == output_open(steps),
        all_options(
            after_steps(FFmpegBuilder::empty_view(f), steps).inputs,
            after_steps(FFmpegBuilder::empty_view(f), steps).current_input,
        ) == input_options(steps),
        all_options(
            after_steps(FFmpegBuilder::empty_view(f), steps).outputs,
            after_steps(FFmpegBuilder::empty_view(f), steps).current_output,
        ) == output_options(steps),
        after_steps(FFmpegBuilder::empty_view(f), steps).post == after_input_args(steps),
        output_open(steps) || after_steps(FFmpegBuilder::empty_view(f), steps).outputs.len() == 0,
    decreases steps.len(),
{
    let e = FFmpegBuilder::empty_view(f);
    if steps.len() == 0 {
        assert(io_paths(Seq::<IoSpecView>::empty()) =~= Seq::<Seq<char>>::empty());
    } else {
        let rest = steps.drop_last();
        lemma_after_steps(f, rest);
        let v = after_steps(e, rest);
        let w = apply_step(v, steps.last());
        match v.current_input {
            Some(i) => assert(io_paths(v.inputs.push(i)) =~= io_paths(v.inputs).push(i.path)),
            None => {},
        }
        match v.current_output {
            Some(o) => assert(io_paths(v.outputs.push(o)) =~= io_paths(v.outputs).push(o.path)),
            None => {},
        }
        match v.current_input {
            Some(i) => lemma_all_options_push(v.inputs, i),
            None => {},
        }
        match v.current_output {
            Some(o) => lemma_all_options_push(v.outputs, o),
            None => {},
        }
        assert(all_options(w.inputs, w.current_input) =~= input_options(steps));
        let r = output_options(rest);
        assert(r == all_options(v.outputs, v.current_output));
        match (steps.last(), v.current_output) {
            (BuilderStep::OutputOptions(a), Some(o)) => {
                assert(extend_last(r, a) =~= all_options(w.outputs, w.current_output));
            },
            (BuilderStep::OpenOutputOptions(a), Some(o)) => {
                assert(extend_last(r, a) =~= all_options(w.outputs, w.current_output));
            },
            (BuilderStep::Filter(flag, x), Some(o)) => {
                assert(filter_last(r, flag, x) =~= all_options(w.outputs, w.current_output));
            },
            (BuilderStep::Output(p), _) => {
                assert(r.push(Seq::empty()) =~= all_options(w.outputs, w.current_output));
            },
            (_, None) => {
                assert(v.outputs.len() == 0);
                assert(r =~= Seq::<Seq<Seq<char>>>::empty());
            },
            _ => {},
        }
        assert(all_options(w.outputs, w.current_output) =~= output_options(steps));
        assert(w.post =~= after_input_args(steps));
        assert(all_paths(w.inputs, w.current_input) =~= input_paths(steps));
        assert(all_paths(w.outputs, w.current_output) =~= output_paths(steps));
        assert(w.global =~= global_args(steps));
        assert(w.pre =~= before_input_args(steps));
    }
}

/// The arguments of inputs given by their paths and options: each input's options, `-i`
/// and its path, in order.
pub open spec fn inputs_section(paths: Seq<Seq<char>>, opts: Seq<Seq<Seq<char>>>) -> Seq<Seq<char>>
    decreases paths.len(),
{
    if paths.len() == 0 {
        Seq::empty()
    } else {
        inputs_section(paths.drop_last(), opts.drop_last()) + opts.last() + seq!["-i"@, paths.last()]
    }
}

/// The arguments of outputs given by their paths and options: each output's options and
/// its path, in order.
pub open spec fn outputs_section(paths: Seq<Seq<char>>, opts: Seq<Seq<Seq<char>>>) -> Seq<Seq<char>>
    decreases paths.len(),
{
    if paths.len() == 0 {
        Seq::empty()
    } else {
        outputs_section(paths.drop_last(), opts.drop_last()) + opts.last() + seq![paths.last()]
    }
}

/// The arguments of inputs and outputs are made of their paths and options.
proof fn lemma_sections(s: Seq<IoSpecView>)
    ensures
        input_args(s) == inputs_section(io_paths(s), all_options(s, None)),
        output_args(s) == outputs_section(io_paths(s), all_options(s, None)),
    decreases s.len(),
{
    if s.len() > 0 {
        let p = s.drop_last();
        lemma_sections(p);
        assert(io_paths(s).drop_last() =~= io_paths(p));
        assert(all_options(s, None).drop_last() =~= all_options(p, None));
        assert(io_paths(s).last() == s.last().path);
        assert(all_options(s, None).last() == s.last().options);
    }
}

/// Building after any sequence of calls on a new builder: without an `input` call the
/// result is `NoInput`; with inputs but without an `output` call, `NoOutput`; else the
/// arguments are the global options in call order, then the options placed before the
/// inputs in call order, then for each input in the order given its options and `-i`
/// with its path, then the options after the inputs, then for each output in the order
/// given its options and its path (see [`input_options`], [`after_input_args`] and
/// [`output_options`] for which calls go where).
pub proof fn build_after_any_calls(f: FFMpeg, steps: Seq<BuilderStep>)
    ensures
        finalized(after_steps(FFmpegBuilder::empty_view(f), steps)).ffmpeg == f,
        input_paths(steps).len() == 0 ==> built_args(after_steps(FFmpegBuilder::empty_view(f), steps))
            == Err::<Seq<Seq<char>>, BuilderError>(BuilderError::NoInput),
        input_paths(steps).len() > 0 && output_paths(steps).len() == 0 ==> built_args(
            after_steps(FFmpegBuilder::empty_view(f), steps),
        ) == Err::<Seq<Seq<char>>, BuilderError>(BuilderError::NoOutput),
        input_paths(steps).len() > 0 && output_paths(steps).len() > 0 ==> built_args(
            after_steps(FFmpegBuilder::empty_view(f), steps),
        ) == Ok::<Seq<Seq<char>>, BuilderError>(
            global_args(steps) + before_input_args(steps) + inputs_section(
                input_paths(steps),
                input_options(steps),
            ) + after_input_args(steps) + outputs_section(output_paths(steps), output_options(steps)),
        ),
{
    lemma_after_steps(f, steps);
    let u = after_steps(FFmpegBuilder::empty_view(f), steps);
    let v = finalized(u);
    match u.current_input {
        Some(i) => {
            assert(io_paths(u.inputs.push(i)) =~= io_paths(u.inputs).push(i.path));
            lemma_all_options_push(u.inputs, i);
        },
        None => {},
    }
    match u.current_output {
        Some(o) => {
            assert(io_paths(u.outputs.push(o)) =~= io_paths(u.outputs).push(o.path));
            lemma_all_options_push(u.outputs, o);
        },
        None => {},
    }
    assert(io_paths(v.inputs) == input_paths(steps));
    assert(io_paths(v.outputs) == output_paths(steps));
    assert(all_options(v.inputs, None) == input_options(steps));
    assert(all_options(v.outputs, None) == output_options(steps));
    assert(io_paths(v.inputs).len() == v.inputs.len());
    assert(io_paths(v.outputs).len() == v.outputs.len());
    lemma_sections(v.inputs);
    lemma_sections(v.outputs);
}

/// The hardware encoder an H.264 or H.265 stream gets on NVENC, QSV, VideoToolbox, VAAPI
/// or AMF: `h264_` or `hevc_` followed by the hardware's name.
pub open spec fn hw_codec_rule(codec: VideoCodec, hw: HardwareAccel) -> Option<Seq<char>> {
    if (codec is H264 || codec is H265) && (hw is NVENC || hw is QSV || hw is VideoToolbox
        || hw is VAAPI || hw is AMF) {
        Some((if codec is H264 { "h264"@ } else { "hevc"@ }) + "_"@ + hw.text())
    } else {
        None
    }
}

/// The step of asking for the video codec named `name` (`-c:v` and the name).
pub open spec fn codec_step(name: Seq<char>) -> BuilderStep {
    BuilderStep::OutputOptions(seq!["-c:v"@, name])
}

/// Asking for a codec on given hardware (`video_codec_hw`) is asking (`video_codec`)
/// for the codec named after the rule [`hw_codec_rule`]: `h264_` or `hevc_` and the
/// hardware's name where there is such an encoder, else the software codec itself. Both
/// calls leave the same builder, so every later build agrees.
pub proof fn hardware_codec_is_named_codec(
    v: BuilderView,
    codec: VideoCodec,
    hw: HardwareAccel,
    named: VideoCodec,
)
    requires
        named.text() == match hw_codec_rule(codec, hw) {
            Some(n) => n,
            None => codec.text(),
        },
    ensures
        hw_codec_name(codec, hw) == hw_codec_rule(codec, hw),
        apply_step(v, codec_step(hw_codec_text(codec, hw))) == apply_step(v, codec_step(named.text())),
        forall|steps: Seq<BuilderStep>|
            built_args(#[trigger] after_steps(apply_step(v, codec_step(hw_codec_text(codec, hw))), steps))
                == built_args(after_steps(apply_step(v, codec_step(named.text())), steps)),
{
    reveal_strlit("h264");
    reveal_strlit("hevc");
    reveal_strlit("_");
    reveal_strlit("nvenc");
    reveal_strlit("qsv");
    reveal_strlit("videotoolbox");
    reveal_strlit("vaapi");
    reveal_strlit("amf");
    reveal_strlit("h264_nvenc");
    reveal_strlit("hevc_nvenc");
    reveal_strlit("h264_qsv");
    reveal_strlit("hevc_qsv");
    reveal_strlit("h264_videotoolbox");
    reveal_strlit("hevc_videotoolbox");
    reveal_strlit("h264_vaapi");
    reveal_strlit("hevc_vaapi");
    reveal_strlit("h264_amf");
    reveal_strlit("hevc_amf");
    match hw_codec_rule(codec, hw) {
        Some(n) => {
            assert(hw_codec_name(codec, hw) matches Some(m) && m =~= n);
        },
        None => {},
    }
}

/// A builder made from a set of binaries (`FFMpeg::ffmpeg_command_builder`) and a new
/// builder over a copy of them (`FFmpegBuilder::new` over `clone`, which gives an equal
/// value) are in the same state, so after any calls both build the same.
pub proof fn command_builder_is_new_builder(f: FFMpeg, copy: FFMpeg, steps: Seq<BuilderStep>)
    requires
        copy == f,
    ensures
        after_steps(FFmpegBuilder::empty_view(f), steps) == after_steps(FFmpegBuilder::empty_view(copy), steps),
        built_args(after_steps(FFmpegBuilder::empty_view(f), steps)) == built_args(
            after_steps(FFmpegBuilder::empty_view(copy), steps),
        ),
{
}

/// An input or output file with its options.
#[derive(Debug, Clone)]
struct IoSpec {
    path: String,
    options: Vec<String>,
}

impl IoSpec {
    closed spec fn view(self) -> IoSpecView {
        IoSpecView { path: self.path@, options: strs(self.options@) }
    }
}

spec fn io_views(s: Seq<IoSpec>) -> Seq<IoSpecView> {
    s.map_values(|x: IoSpec| x.view())
}

spec fn opt_io_view(o: Option<IoSpec>) -> Option<IoSpecView> {
    match o {
        Some(x) => Some(x.view()),
        None => None,
    }
}

/// FFmpeg command builder with fluent API.
pub struct FFmpegBuilder {
    ffmpeg: Arc<FFMpeg>,
    pre_input_args: Vec<String>,
    inputs: Vec<IoSpec>,
    post_input_args: Vec<String>,
    outputs: Vec<IoSpec>,
    global_args: Vec<String>,
    current_input: Option<IoSpec>,
    current_output: Option<IoSpec>,
}

impl View for FFmpegBuilder {
    type V = BuilderView;

    closed spec fn view(&self) -> BuilderView {
        BuilderView {
            ffmpeg: *self.ffmpeg,
            global: strs(self.global_args@),
            pre: strs(self.pre_input_args@),
            inputs: io_views(self.inputs@),
            post: strs(self.post_input_args@),
            outputs: io_views(self.outputs@),
            current_input: opt_io_view(self.current_input),
            current_output: opt_io_view(self.current_output),
        }
    }
}

/// A vector of two strings.
fn pair(a: &str, b: String) -> (res: Vec<String>)
    ensures
        strs(res@) == seq![a@, b@],
{
    let mut v: Vec<String> = Vec::new();
    v.push(owned(a));
    v.push(b);
    assert(strs(v@) =~= seq![a@, b@]);
    v
}

/// A vector of one string.
fn single(a: &str) -> (res: Vec<String>)
    ensures
        strs(res@) == seq![a@],
{
    let mut v: Vec<String> = Vec::new();
    v.push(owned(a));
    assert(strs(v@) =~= seq![a@]);
    v
}

/// Appends `extra` to `v`.
fn append_strings(v: &mut Vec<String>, extra: Vec<String>)
    ensures
        strs(final(v)@) == strs(old(v)@) + strs(extra@),
{
    let ghost added = strs(extra@);
    let mut extra = extra;
    v.append(&mut extra);
    assert(strs(v@) =~= strs(old(v)@) + added);
}

/// The position of the first argument equal to `flag`, if any.
fn find_first(args: &Vec<String>, flag: &str) -> (res: Option<usize>)
    ensures
        res matches Some(p) ==> p < args.len() && strs(args@).index_of_first(flag@) == Some(
            p as int,
        ),
        res is None ==> strs(args@).index_of_first(flag@) is None,
{
    let ghost s = strs(args@);
    proof {
        s.index_of_first_ensures(flag@);
    }
    let mut i: usize = 0;
    while i < args.len()
        invariant
            strs(args@) == s,
            i <= args.len(),
            forall|j: int| 0 <= j < i ==> s[j] != flag@,
            match s.index_of_first(flag@) {
                Some(index) => {
                    &&& s.contains(flag@)
                    &&& 0 <= index < s.len()
                    &&& s[index] == flag@
                    &&& forall|j: int| 0 <= j < index < s.len() ==> s[j] != flag@
                },
                None => !s.contains(flag@),
            },
        decreases args.len() - i,
    {
        if str_eq(args[i].as_str(), flag) {
            assert(s[i as int] == flag@);
            assert(s.contains(flag@));
            assert(s.index_of_first(flag@) == Some(i as int));
            return Some(i);
        }
        i = i + 1;
    }
    assert(!s.contains(flag@));
    None
}

/// Adds `filter` to the chain named `flag` in `args` (see [`appended_filter`]).
fn add_filter(args: &mut Vec<String>, flag: &str, filter: String)
    ensures
        strs(final(args)@) == appended_filter(strs(old(args)@), flag@, filter@),
{
    let ghost s = strs(args@);
    match find_first(args, flag) {
        Some(i) => {
            if i < args.len() - 1 {
                let mut existing = args[i + 1].clone();
                assert(existing@ == s[i + 1]);
                push_char(&mut existing, ',');
                push_str(&mut existing, filter.as_str());
                assert(existing@ == s[i + 1] + seq![','] + filter@);
                args.set(i + 1, existing);
                assert(strs(args@) =~= s.update(i + 1, s[i + 1] + seq![','] + filter@));
            }
        },
        None => {
            args.push(owned(flag));
            args.push(filter);
            assert(strs(args@) =~= s + seq![flag@, filter@]);
        },
    }
}

/// The hardware encoder name for `codec` on `hw`, if there is one.
fn hw_codec(codec: &VideoCodec, hw: &HardwareAccel) -> (res: Option<&'static str>)
    ensures
        match res {
            Some(n) => hw_codec_name(*codec, *hw) == Some(n@),
            None => hw_codec_name(*codec, *hw) is None,
        },
{
    match codec {
        VideoCodec::H264 => match hw {
            HardwareAccel::NVENC => Some("h264_nvenc"),
            HardwareAccel::QSV => Some("h264_qsv"),
            HardwareAccel::VideoToolbox => Some("h264_videotoolbox"),
            HardwareAccel::VAAPI => Some("h264_vaapi"),
            HardwareAccel::AMF => Some("h264_amf"),
            _ => None,
        },
        VideoCodec::H265 => match hw {
            HardwareAccel::NVENC => Some("hevc_nvenc"),
            HardwareAccel::QSV => Some("hevc_qsv"),
            HardwareAccel::VideoToolbox => Some("hevc_videotoolbox"),
            HardwareAccel::VAAPI => Some("hevc_vaapi"),
            HardwareAccel::AMF => Some("hevc_amf"),
            _ => None,
        },
        _ => None,
    }
}

impl FFmpegBuilder {
    /// The state of a new builder for `ffmpeg`.
    pub open spec fn empty_view(ffmpeg: FFMpeg) -> BuilderView {
        BuilderView {
            ffmpeg,
            global: Seq::empty(),
            pre: Seq::empty(),
            inputs: Seq::empty(),
            post: Seq::empty(),
            outputs: Seq::empty(),
            current_input: None,
            current_output: None,
        }
    }

    /// Create a new FFmpeg command builder
    pub fn new(ffmpeg: Arc<FFMpeg>) -> (res: Self)
        ensures
            res@ == Self::empty_view(*ffmpeg),
    {
        let res = Self {
            ffmpeg,
            pre_input_args: Vec::new(),
            inputs: Vec::new(),
            post_input_args: Vec::new(),
            outputs: Vec::new(),
            global_args: Vec::new(),
            current_input: None,
            current_output: None,
        };
        assert(strs(res.global_args@) =~= Seq::<Seq<char>>::empty());
        assert(strs(res.pre_input_args@) =~= Seq::<Seq<char>>::empty());
        assert(strs(res.post_input_args@) =~= Seq::<Seq<char>>::empty());
        assert(io_views(res.inputs@) =~= Seq::<IoSpecView>::empty());
        assert(io_views(res.outputs@) =~= Seq::<IoSpecView>::empty());
        res
    }

    /// Appends `opts` to the open output, or after the inputs when no output is open.
    fn push_output_opts(&mut self, opts: Vec<String>)
        ensures
            final(self)@ == with_output_opts(old(self)@, strs(opts@)),
    {
        match self.current_output.take() {
            Some(o) => {
                let mut o = o;
                append_strings(&mut o.options, opts);
                self.current_output = Some(o);
            },
            None => {
                append_strings(&mut self.post_input_args, opts);
            },
        }
    }

    /// Appends `opts` to the open output; nothing happens when no output is open.
    fn push_open_output_opts(&mut self, opts: Vec<String>)
        ensures
            final(self)@ == with_open_output_opts(old(self)@, strs(opts@)),
    {
        match self.current_output.take() {
            Some(o) => {
                let mut o = o;
                append_strings(&mut o.options, opts);
                self.current_output = Some(o);
            },
            None => {},
        }
    }

    /// Appends `opts` to the open input; nothing happens when no input is open.
    fn push_input_opts(&mut self, opts: Vec<String>)
        ensures
            final(self)@ == with_input_opts(old(self)@, strs(opts@)),
    {
        match self.current_input.take() {
            Some(i) => {
                let mut i = i;
                append_strings(&mut i.options, opts);
                self.current_input = Some(i);
            },
            None => {},
        }
    }

    /// Adds a filter to the chain named `flag` of the open output, or after the inputs.
    fn push_filter(&mut self, flag: &str, filter: String)
        ensures
            final(self)@ == with_filter(old(self)@, flag@, filter@),
    {
        match self.current_output.take() {
            Some(o) => {
                let mut o = o;
                add_filter(&mut o.options, flag, filter);
                self.current_output = Some(o);
            },
            None => {
                add_filter(&mut self.post_input_args, flag, filter);
            },
        }
    }

    /// A pair of arguments for the open output (or after the inputs).
    fn output_pair(self, flag: &str, value: String) -> (res: Self)
        ensures
            res@ == with_output_opts(self@, seq![flag@, value@]),
    {
        let mut b = self;
        b.push_output_opts(pair(flag, value));
        b
    }

    /// A single argument for the open output (or after the inputs).
    fn output_flag(self, flag: &str) -> (res: Self)
        ensures
            res@ == with_output_opts(self@, seq![flag@]),
    {
        let mut b = self;
        b.push_output_opts(single(flag));
        b
    }

    /// A pair of arguments for the open input.
    fn input_pair(self, flag: &str, value: &str) -> (res: Self)
        ensures
            res@ == with_input_opts(self@, seq![flag@, value@]),
    {
        let mut b = self;
        b.push_input_opts(pair(flag, owned(value)));
        b
    }

    // ==================== Global Options ====================

    /// Set overwrite mode for output files
    pub fn overwrite(self, yes: bool) -> (res: Self)
        ensures
            res@ == (BuilderView {
                global: self@.global.push(if yes { "-y"@ } else { "-n"@ }),
                ..self@
            }),
            res@ == apply_step(self@, BuilderStep::Global(seq![if yes { "-y"@ } else { "-n"@ }])),
    {
        let mut b = self;
        let ghost before = strs(b.global_args@);
        if yes {
            b.global_args.push(owned("-y"));
        } else {
            b.global_args.push(owned("-n"));
        }
        proof {
            assert(strs(b.global_args@) =~= before.push(
                if yes { "-y"@ } else { "-n"@ },
            ));
            assert(before.push(if yes { "-y"@ } else { "-n"@ }) =~= before + seq![
                if yes { "-y"@ } else { "-n"@ },
            ]);
        }
        b
    }

    /// Set hardware acceleration (applies globally before inputs)
    pub fn hardware_accel(self, accel: HardwareAccel) -> (res: Self)
        ensures
            res@ == (if accel is Disabled {
                self@
            } else {
                BuilderView { pre: self@.pre + seq!["-hwaccel"@, accel.text()], ..self@ }
            }),
            res@ == apply_step(
                self@,
                BuilderStep::BeforeInputs(
                    if accel is Disabled { Seq::empty() } else { seq!["-hwaccel"@, accel.text()] },
                ),
            ),
    {
        let mut b = self;
        if !matches!(accel, HardwareAccel::Disabled) {
            append_strings(&mut b.pre_input_args, pair("-hwaccel", accel.to_string()));
        }
        b
    }

    /// Set hardware device
    pub fn hardware_device(self, device: &str) -> (res: Self)
        ensures
            res@ == (BuilderView { pre: self@.pre + seq!["-hwaccel_device"@, device@], ..self@ }),
            res@ == apply_step(self@, BuilderStep::BeforeInputs(seq!["-hwaccel_device"@, device@])),
    {
        let mut b = self;
        append_strings(&mut b.pre_input_args, pair("-hwaccel_device", owned(device)));
        b
    }

    /// Set log level
    pub fn log_level(self, level: &str) -> (res: Self)
        ensures
            res@ == (BuilderView { global: self@.global + seq!["-loglevel"@, level@], ..self@ }),
            res@ == apply_step(self@, BuilderStep::Global(seq!["-loglevel"@, level@])),
    {
        let mut b = self;
        append_strings(&mut b.global_args, pair("-loglevel", owned(level)));
        b
    }

    /// Hide banner
    pub fn hide_banner(self) -> (res: Self)
        ensures
            res@ == (BuilderView { global: self@.global + seq!["-hide_banner"@], ..self@ }),
            res@ == apply_step(self@, BuilderStep::Global(seq!["-hide_banner"@])),
    {
        let mut b = self;
        append_strings(&mut b.global_args, single("-hide_banner"));
        b
    }

    /// Add a raw argument (escape hatch for unsupported options)
    pub fn raw_arg(self, arg: &str) -> (res: Self)
        ensures
            res@ == (BuilderView { global: self@.global + seq![arg@], ..self@ }),
            res@ == apply_step(self@, BuilderStep::Global(seq![arg@])),
    {
        let mut b = self;
        let mut v: Vec<String> = Vec::new();
        v.push(owned(arg));
        assert(strs(v@) =~= seq![arg@]);
        append_strings(&mut b.global_args, v);
        b
    }

    /// Add multiple raw arguments
    pub fn raw_args(self, args: Vec<String>) -> (res: Self)
        ensures
            res@ == (BuilderView { global: self@.global + strs(args@), ..self@ }),
            res@ == apply_step(self@, BuilderStep::Global(strs(args@))),
    {
        let mut b = self;
        append_strings(&mut b.global_args, args);
        b
    }

    // ==================== Input Handling ====================

    /// Add an input file
    pub fn input(self, path: &str) -> (res: Result<Self, BuilderError>)
        ensures
            res matches Ok(b) && b@ == (BuilderView {
                inputs: match self@.current_input {
                    Some(i) => self@.inputs.push(i),
                    None => self@.inputs,
                },
                current_input: Some(IoSpecView { path: path@, options: Seq::empty() }),
                ..self@
            }),
            res matches Ok(b) && b@ == apply_step(self@, BuilderStep::Input(path@)),
    {
        let mut b = self;
        let ghost before = io_views(b.inputs@);
        match b.current_input.take() {
            Some(i) => {
                b.inputs.push(i);
                assert(io_views(b.inputs@) =~= before.push(i.view()));
            },
            None => {},
        }
        let spec = IoSpec { path: owned(path), options: Vec::new() };
        assert(strs(spec.options@) =~= Seq::<Seq<char>>::empty());
        b.current_input = Some(spec);
        Ok(b)
    }

    /// Set the input format
    pub fn input_format(self, format: &str) -> (res: Self)
        ensures
            res@ == with_input_opts(self@, seq!["-f"@, format@]),
            res@ == apply_step(self@, BuilderStep::InputOptions(seq!["-f"@, format@])),
    {
        self.input_pair("-f", format)
    }

    /// Set start time for input (seeking)
    pub fn start_time(self, time: &str) -> (res: Result<Self, BuilderError>)
        ensures
            res matches Ok(b) && b@ == with_input_opts(self@, seq!["-ss"@, time@]),
            res matches Ok(b) && b@ == apply_step(self@, BuilderStep::InputOptions(seq!["-ss"@, time@])),
    {
        Ok(self.input_pair("-ss", time))
    }

    /// Set duration for input
    pub fn duration(self, duration: &str) -> (res: Result<Self, BuilderError>)
        ensures
            res matches Ok(b) && b@ == with_input_opts(self@, seq!["-t"@, duration@]),
            res matches Ok(b) && b@ == apply_step(self@, BuilderStep::InputOptions(seq!["-t"@, duration@])),
    {
        Ok(self.input_pair("-t", duration))
    }

    /// Set end time for input
    pub fn end_time(self, time: &str) -> (res: Result<Self, BuilderError>)
        ensures
            res matches Ok(b) && b@ == with_input_opts(self@, seq!["-to"@, time@]),
            res matches Ok(b) && b@ == apply_step(self@, BuilderStep::InputOptions(seq!["-to"@, time@])),
    {
        Ok(self.input_pair("-to", time))
    }

    /// Set input framerate
    pub fn input_framerate(self, fps: &str) -> (res: Self)
        ensures
            res@ == with_input_opts(self@, seq!["-r"@, fps@]),
            res@ == apply_step(self@, BuilderStep::InputOptions(seq!["-r"@, fps@])),
    {
        self.input_pair("-r", fps)
    }

    // ==================== Output Handling ====================

    /// Add an output file and finalize current input if any
    pub fn output(self, path: &str) -> (res: Result<Self, BuilderError>)
        ensures
            res matches Ok(b) && b@ == (BuilderView {
                inputs: finalized(self@).inputs,
                outputs: finalized(self@).outputs,
                current_input: None,
                current_output: Some(IoSpecView { path: path@, options: Seq::empty() }),
                ..self@
            }),
            res matches Ok(b) && b@ == apply_step(self@, BuilderStep::Output(path@)),
    {
        let mut b = self;
        b.close_pending();
        let spec = IoSpec { path: owned(path), options: Vec::new() };
        assert(strs(spec.options@) =~= Seq::<Seq<char>>::empty());
        b.current_output = Some(spec);
        Ok(b)
    }

    /// Moves the open input and output (if any) to the finished ones.
    fn close_pending(&mut self)
        ensures
            final(self)@ == finalized(old(self)@),
    {
        match self.current_input.take() {
            Some(i) => {
                self.inputs.push(i);
                assert(io_views(self.inputs@) =~= io_views(old(self).inputs@).push(
                    old(self).current_input->0.view(),
                ));
            },
            None => {},
        }
        match self.current_output.take() {
            Some(o) => {
                self.outputs.push(o);
                assert(io_views(self.outputs@) =~= io_views(old(self).outputs@).push(
                    old(self).current_output->0.view(),
                ));
            },
            None => {},
        }
    }

    // ==================== Video Codec Options ====================

    /// Set video codec
    pub fn video_codec(self, codec: VideoCodec) -> (res: Self)
        ensures
            res@ == with_output_opts(self@, seq!["-c:v"@, codec.text()]),
            res@ == apply_step(self@, BuilderStep::OutputOptions(seq!["-c:v"@, codec.text()])),
    {
        let c = codec.to_string();
        self.output_pair("-c:v", c)
    }

    /// Set video codec with hardware acceleration; a pair with no hardware encoder
    /// falls back to the software codec.
    pub fn video_codec_hw(self, codec: VideoCodec, hw: HardwareAccel) -> (res: Self)
        ensures
            res@ == with_output_opts(self@, seq!["-c:v"@, hw_codec_text(codec, hw)]),
            res@ == apply_step(self@, BuilderStep::OutputOptions(seq!["-c:v"@, hw_codec_text(codec, hw)])),
    {
        match hw_codec(&codec, &hw) {
            Some(name) => {
                let r = self.output_pair("-c:v", owned(name));
                assert(hw_codec_name(codec, hw) == Some(name@));
                assert(hw_codec_text(codec, hw) == name@);
                r
            },
            None => {
                let r = self.video_codec(codec);
                assert(hw_codec_name(codec, hw) is None);
                assert(hw_codec_text(codec, hw) == codec.text());
                r
            },
        }
    }

    /// Set constant rate factor (CRF) for video quality (0-51, lower is better)
    pub fn crf(self, value: u8) -> (res: Self)
        ensures
            res@ == with_output_opts(self@, seq!["-crf"@, decimal(value as nat)]),
            res@ == apply_step(self@, BuilderStep::OutputOptions(seq!["-crf"@, decimal(value as nat)])),
    {
        self.output_pair("-crf", decimal_string(value as u64))
    }

    /// Set video bitrate
    pub fn video_bitrate(self, bitrate: &str) -> (res: Result<Self, BuilderError>)
        ensures
            res matches Ok(b) && b@ == with_output_opts(self@, seq!["-b:v"@, bitrate@]),
            res matches Ok(b) && b@ == apply_step(self@, BuilderStep::OutputOptions(seq!["-b:v"@, bitrate@])),
    {
        Ok(self.output_pair("-b:v", owned(bitrate)))
    }

    /// Set maximum video bitrate
    pub fn max_video_bitrate(self, bitrate: &str) -> (res: Result<Self, BuilderError>)
        ensures
            res matches Ok(b) && b@ == with_output_opts(self@, seq!["-maxrate"@, bitrate@]),
            res matches Ok(b) && b@ == apply_step(self@, BuilderStep::OutputOptions(seq!["-maxrate"@, bitrate@])),
    {
        Ok(self.output_pair("-maxrate", owned(bitrate)))
    }

    /// Set buffer size for bitrate control
    pub fn buffer_size(self, size: &str) -> (res: Self)
        ensures
            res@ == with_output_opts(self@, seq!["-bufsize"@, size@]),
            res@ == apply_step(self@, BuilderStep::OutputOptions(seq!["-bufsize"@, size@])),
    {
        self.output_pair("-bufsize", owned(size))
    }

    /// Set encoding preset
    pub fn preset(self, preset: Preset) -> (res: Self)
        ensures
            res@ == with_output_opts(self@, seq!["-preset"@, preset.text()]),
            res@ == apply_step(self@, BuilderStep::OutputOptions(seq!["-preset"@, preset.text()])),
    {
        let p = preset.to_string();
        self.output_pair("-preset", p)
    }

    /// Set pixel format
    pub fn pixel_format(self, format: PixelFormat) -> (res: Self)
        ensures
            res@ == with_output_opts(self@, seq!["-pix_fmt"@, format.text()]),
            res@ == apply_step(self@, BuilderStep::OutputOptions(seq!["-pix_fmt"@, format.text()])),
    {
        let f = format.to_string();
        self.output_pair("-pix_fmt", f)
    }

    /// Set output framerate
    pub fn framerate(self, fps: &str) -> (res: Self)
        ensures
            res@ == with_output_opts(self@, seq!["-r"@, fps@]),
            res@ == apply_step(self@, BuilderStep::OutputOptions(seq!["-r"@, fps@])),
    {
        self.output_pair("-r", owned(fps))
    }

    /// Set keyframe interval (GOP size)
    pub fn keyframe_interval(self, frames: u32) -> (res: Self)
        ensures
            res@ == with_output_opts(self@, seq!["-g"@, decimal(frames as nat)]),
            res@ == apply_step(self@, BuilderStep::OutputOptions(seq!["-g"@, decimal(frames as nat)])),
    {
        self.output_pair("-g", decimal_string(frames as u64))
    }

    // ==================== Resolution & Scaling ====================

    /// Set output resolution: adds the video filter `scale=W:H`
    pub fn resolution(self, width: u32, height: u32) -> (res: Self)
        ensures
            res@ == with_filter(
                self@,
                "-vf"@,
                "scale="@ + decimal(width as nat) + ":"@ + decimal(height as nat),
            ),
            res@ == apply_step(self@, BuilderStep::Filter("-vf"@,
                "scale="@ + decimal(width as nat) + ":"@ + decimal(height as nat),
            )),
    {
        let mut scale = owned("scale=");
        push_decimal(&mut scale, width as u64);
        push_str(&mut scale, ":");
        push_decimal(&mut scale, height as u64);
        self.video_filter_string(scale)
    }

    /// Set output width (height will be automatically calculated to maintain aspect ratio)
    pub fn width(self, width: u32) -> (res: Self)
        ensures
            res@ == with_filter(self@, "-vf"@, "scale="@ + decimal(width as nat) + ":-1"@),
            res@ == apply_step(self@, BuilderStep::Filter("-vf"@, "scale="@ + decimal(width as nat) + ":-1"@)),
    {
        let mut scale = owned("scale=");
        push_decimal(&mut scale, width as u64);
        push_str(&mut scale, ":-1");
        self.video_filter_string(scale)
    }

    /// Set output height (width will be automatically calculated to maintain aspect ratio)
    pub fn height(self, height: u32) -> (res: Self)
        ensures
            res@ == with_filter(self@, "-vf"@, "scale=-1:"@ + decimal(height as nat)),
            res@ == apply_step(self@, BuilderStep::Filter("-vf"@, "scale=-1:"@ + decimal(height as nat))),
    {
        let mut scale = owned("scale=-1:");
        push_decimal(&mut scale, height as u64);
        self.video_filter_string(scale)
    }

    /// Set scaling algorithm
    pub fn scale_algorithm(self, algorithm: ScaleAlgorithm) -> (res: Self)
        ensures
            res@ == with_output_opts(self@, seq!["-sws_flags"@, algorithm.text()]),
            res@ == apply_step(self@, BuilderStep::OutputOptions(seq!["-sws_flags"@, algorithm.text()])),
    {
        let a = algorithm.to_string();
        self.output_pair("-sws_flags", a)
    }

    // ==================== Audio Codec Options ====================

    /// Set audio codec
    pub fn audio_codec(self, codec: AudioCodec) -> (res: Self)
        ensures
            res@ == with_output_opts(self@, seq!["-c:a"@, codec.text()]),
            res@ == apply_step(self@, BuilderStep::OutputOptions(seq!["-c:a"@, codec.text()])),
    {
        let c = codec.to_string();
        self.output_pair("-c:a", c)
    }

    /// Set audio bitrate
    pub fn audio_bitrate(self, bitrate: &str) -> (res: Result<Self, BuilderError>)
        ensures
            res matches Ok(b) && b@ == with_output_opts(self@, seq!["-b:a"@, bitrate@]),
            res matches Ok(b) && b@ == apply_step(self@, BuilderStep::OutputOptions(seq!["-b:a"@, bitrate@])),
    {
        Ok(self.output_pair("-b:a", owned(bitrate)))
    }

    /// Set audio sample rate
    pub fn audio_sample_rate(self, rate: u32) -> (res: Self)
        ensures
            res@ == with_output_opts(self@, seq!["-ar"@, decimal(rate as nat)]),
            res@ == apply_step(self@, BuilderStep::OutputOptions(seq!["-ar"@, decimal(rate as nat)])),
    {
        self.output_pair("-ar", decimal_string(rate as u64))
    }

    /// Set audio channels
    pub fn audio_channels(self, channels: u8) -> (res: Self)
        ensures
            res@ == with_output_opts(self@, seq!["-ac"@, decimal(channels as nat)]),
            res@ == apply_step(self@, BuilderStep::OutputOptions(seq!["-ac"@, decimal(channels as nat)])),
    {
        self.output_pair("-ac", decimal_string(channels as u64))
    }

    /// Set audio channel layout
    pub fn channel_layout(self, layout: ChannelLayout) -> (res: Self)
        ensures
            res@ == with_output_opts(self@, seq!["-channel_layout"@, layout.text()]),
            res@ == apply_step(self@, BuilderStep::OutputOptions(seq!["-channel_layout"@, layout.text()])),
    {
        let l = layout.to_string();
        self.output_pair("-channel_layout", l)
    }

    /// Set audio quality (for VBR encoding, 0-10 where lower is better for most codecs)
    pub fn audio_quality(self, quality: u8) -> (res: Self)
        ensures
            res@ == with_output_opts(self@, seq!["-q:a"@, decimal(quality as nat)]),
            res@ == apply_step(self@, BuilderStep::OutputOptions(seq!["-q:a"@, decimal(quality as nat)])),
    {
        self.output_pair("-q:a", decimal_string(quality as u64))
    }

    /// Disable audio
    pub fn no_audio(self) -> (res: Self)
        ensures
            res@ == with_output_opts(self@, seq!["-an"@]),
            res@ == apply_step(self@, BuilderStep::OutputOptions(seq!["-an"@])),
    {
        self.output_flag("-an")
    }

    /// Disable video
    pub fn no_video(self) -> (res: Self)
        ensures
            res@ == with_output_opts(self@, seq!["-vn"@]),
            res@ == apply_step(self@, BuilderStep::OutputOptions(seq!["-vn"@])),
    {
        self.output_flag("-vn")
    }

    /// Disable subtitles
    pub fn no_subtitles(self) -> (res: Self)
        ensures
            res@ == with_output_opts(self@, seq!["-sn"@]),
            res@ == apply_step(self@, BuilderStep::OutputOptions(seq!["-sn"@])),
    {
        self.output_flag("-sn")
    }

    // ==================== Format Options ====================

    /// Set output format
    pub fn format(self, format: ContainerFormat) -> (res: Self)
        ensures
            res@ == with_output_opts(self@, seq!["-f"@, format.text()]),
            res@ == apply_step(self@, BuilderStep::OutputOptions(seq!["-f"@, format.text()])),
    {
        let f = format.to_string();
        self.output_pair("-f", f)
    }

    /// Set movflags for MP4 (e.g., "faststart" for web streaming)
    pub fn movflags(self, flags: &str) -> (res: Self)
        ensures
            res@ == with_output_opts(self@, seq!["-movflags"@, flags@]),
            res@ == apply_step(self@, BuilderStep::OutputOptions(seq!["-movflags"@, flags@])),
    {
        self.output_pair("-movflags", owned(flags))
    }

    // ==================== Filters ====================

    fn video_filter_string(self, filter: String) -> (res: Self)
        ensures
            res@ == with_filter(self@, "-vf"@, filter@),
    {
        let mut b = self;
        b.push_filter("-vf", filter);
        b
    }

    /// Add a video filter; filters added to the same output are joined with commas.
    pub fn video_filter(self, filter: &str) -> (res: Self)
        ensures
            res@ == with_filter(self@, "-vf"@, filter@),
            res@ == apply_step(self@, BuilderStep::Filter("-vf"@, filter@)),
    {
        self.video_filter_string(owned(filter))
    }

    /// Add an audio filter; filters added to the same output are joined with commas.
    pub fn audio_filter(self, filter: &str) -> (res: Self)
        ensures
            res@ == with_filter(self@, "-af"@, filter@),
            res@ == apply_step(self@, BuilderStep::Filter("-af"@, filter@)),
    {
        let mut b = self;
        b.push_filter("-af", owned(filter));
        b
    }

    /// Add a complex filter graph
    pub fn filter_complex(self, filter: &str) -> (res: Self)
        ensures
            res@ == (BuilderView {
                post: self@.post + seq!["-filter_complex"@, filter@],
                ..self@
            }),
            res@ == apply_step(self@, BuilderStep::AfterInputs(seq!["-filter_complex"@, filter@])),
    {
        let mut b = self;
        append_strings(&mut b.post_input_args, pair("-filter_complex", owned(filter)));
        b
    }

    // ==================== Stream Selection & Mapping ====================

    /// Map a stream from input to output (e.g., "0:v:0" for first video stream of first input)
    pub fn map(self, stream: &str) -> (res: Self)
        ensures
            res@ == with_output_opts(self@, seq!["-map"@, stream@]),
            res@ == apply_step(self@, BuilderStep::OutputOptions(seq!["-map"@, stream@])),
    {
        self.output_pair("-map", owned(stream))
    }

    /// Select specific stream by type and index: maps `input:type:stream`
    pub fn select_stream(self, stream_type: StreamType, input_index: usize, stream_index: usize) -> (res:
        Self)
        ensures
            res@ == with_output_opts(
                self@,
                seq![
                    "-map"@,
                    decimal(input_index as nat) + ":"@ + stream_type.text() + ":"@ + decimal(
                        stream_index as nat,
                    ),
                ],
            ),
            res@ == apply_step(self@, BuilderStep::OutputOptions(seq![
                    "-map"@,
                    decimal(input_index as nat) + ":"@ + stream_type.text() + ":"@ + decimal(
                        stream_index as nat,
                    ),
                ],
            )),
    {
        let mut spec = decimal_string(input_index as u64);
        push_str(&mut spec, ":");
        let t = stream_type.to_string();
        push_str(&mut spec, t.as_str());
        push_str(&mut spec, ":");
        push_decimal(&mut spec, stream_index as u64);
        self.output_pair("-map", spec)
    }

    // ==================== Metadata ====================

    /// Set metadata `key=value`
    pub fn metadata(self, key: &str, value: &str) -> (res: Self)
        ensures
            res@ == with_output_opts(self@, seq!["-metadata"@, key@ + "="@ + value@]),
            res@ == apply_step(self@, BuilderStep::OutputOptions(seq!["-metadata"@, key@ + "="@ + value@])),
    {
        let mut kv = owned(key);
        push_str(&mut kv, "=");
        push_str(&mut kv, value);
        self.output_pair("-metadata", kv)
    }

    // ==================== Two-Pass Encoding ====================

    /// Enable first pass of two-pass encoding (only applies to an open output)
    pub fn two_pass_first(self, log_file: &str) -> (res: Self)
        ensures
            res@ == with_open_output_opts(
                self@,
                seq!["-pass"@, "1"@, "-passlogfile"@, log_file@, "-f"@, "null"@],
            ),
            res@ == apply_step(self@, BuilderStep::OpenOutputOptions(seq!["-pass"@, "1"@, "-passlogfile"@, log_file@, "-f"@, "null"@],
            )),
    {
        let mut b = self;
        let mut v = pair("-pass", owned("1"));
        append_strings(&mut v, pair("-passlogfile", owned(log_file)));
        append_strings(&mut v, pair("-f", owned("null")));
        assert(strs(v@) =~= seq!["-pass"@, "1"@, "-passlogfile"@, log_file@, "-f"@, "null"@]);
        b.push_open_output_opts(v);
        b
    }

    /// Enable second pass of two-pass encoding (only applies to an open output)
    pub fn two_pass_second(self, log_file: &str) -> (res: Self)
        ensures
            res@ == with_open_output_opts(
                self@,
                seq!["-pass"@, "2"@, "-passlogfile"@, log_file@],
            ),
            res@ == apply_step(self@, BuilderStep::OpenOutputOptions(seq!["-pass"@, "2"@, "-passlogfile"@, log_file@],
            )),
    {
        let mut b = self;
        let mut v = pair("-pass", owned("2"));
        append_strings(&mut v, pair("-passlogfile", owned(log_file)));
        assert(strs(v@) =~= seq!["-pass"@, "2"@, "-passlogfile"@, log_file@]);
        b.push_open_output_opts(v);
        b
    }

    // ==================== Streaming ====================

    /// Configure HLS output (only applies to an open output)
    pub fn hls_options(self, segment_time: u32, list_size: u32, format: &str) -> (res: Self)
        ensures
            res@ == with_open_output_opts(
                self@,
                seq![
                    "-f"@,
                    "hls"@,
                    "-hls_time"@,
                    decimal(segment_time as nat),
                    "-hls_list_size"@,
                    decimal(list_size as nat),
                    "-hls_segment_filename"@,
                    format@,
                ],
            ),
            res@ == apply_step(self@, BuilderStep::OpenOutputOptions(seq![
                    "-f"@,
                    "hls"@,
                    "-hls_time"@,
                    decimal(segment_time as nat),
                    "-hls_list_size"@,
                    decimal(list_size as nat),
                    "-hls_segment_filename"@,
                    format@,
                ],
            )),
    {
        let mut b = self;
        let mut v = pair("-f", owned("hls"));
        append_strings(&mut v, pair("-hls_time", decimal_string(segment_time as u64)));
        append_strings(&mut v, pair("-hls_list_size", decimal_string(list_size as u64)));
        append_strings(&mut v, pair("-hls_segment_filename", owned(format)));
        assert(strs(v@) =~= seq![
            "-f"@,
            "hls"@,
            "-hls_time"@,
            decimal(segment_time as nat),
            "-hls_list_size"@,
            decimal(list_size as nat),
            "-hls_segment_filename"@,
            format@,
        ]);
        b.push_open_output_opts(v);
        b
    }

    /// Configure DASH output (only applies to an open output)
    pub fn dash_options(self, segment_duration: u32, window_size: u32) -> (res: Self)
        ensures
            res@ == with_open_output_opts(
                self@,
                seq![
                    "-f"@,
                    "dash"@,
                    "-seg_duration"@,
                    decimal(segment_duration as nat),
                    "-window_size"@,
                    decimal(window_size as nat),
                ],
            ),
            res@ == apply_step(self@, BuilderStep::OpenOutputOptions(seq![
                    "-f"@,
                    "dash"@,
                    "-seg_duration"@,
                    decimal(segment_duration as nat),
                    "-window_size"@,
                    decimal(window_size as nat),
                ],
            )),
    {
        let mut b = self;
        let mut v = pair("-f", owned("dash"));
        append_strings(&mut v, pair("-seg_duration", decimal_string(segment_duration as u64)));
        append_strings(&mut v, pair("-window_size", decimal_string(window_size as u64)));
        assert(strs(v@) =~= seq![
            "-f"@,
            "dash"@,
            "-seg_duration"@,
            decimal(segment_duration as nat),
            "-window_size"@,
            decimal(window_size as nat),
        ]);
        b.push_open_output_opts(v);
        b
    }

    // ==================== Build ====================

    /// Build the command: fails without an input, then without an output; otherwise the
    /// arguments are the global options, the options before the inputs, each input's
    /// options with `-i` and its path, the options after the inputs, and each output's
    /// options with its path.
    pub fn build(self) -> (res: Result<FFmpegCommand, BuilderError>)
        ensures
            finalized(self@).inputs.len() == 0 ==> res == Err::<FFmpegCommand, BuilderError>(
                BuilderError::NoInput,
            ),
            finalized(self@).inputs.len() > 0 && finalized(self@).outputs.len() == 0 ==> res
                == Err::<FFmpegCommand, BuilderError>(BuilderError::NoOutput),
            finalized(self@).inputs.len() > 0 && finalized(self@).outputs.len() > 0 ==> (res matches Ok(
                cmd,
            ) && cmd@.ffmpeg == self@.ffmpeg && cmd@.args == command_args(finalized(self@))),
            match built_args(self@) {
                Ok(a) => res matches Ok(cmd) && cmd@.ffmpeg == self@.ffmpeg && cmd@.args == a,
                Err(e) => res == Err::<FFmpegCommand, BuilderError>(e),
            },
    {
        let mut b = self;
        b.close_pending();
        if b.inputs.len() == 0 {
            return Err(BuilderError::NoInput);
        }
        if b.outputs.len() == 0 {
            return Err(BuilderError::NoOutput);
        }
        let ghost v = b@;
        let mut args: Vec<String> = Vec::new();
        append_strings(&mut args, b.global_args);
        append_strings(&mut args, b.pre_input_args);
        assert(strs(args@) =~= v.global + v.pre);
        let mut i: usize = 0;
        while i < b.inputs.len()
            invariant
                i <= b.inputs.len(),
                io_views(b.inputs@) == v.inputs,
                strs(args@) == v.global + v.pre + input_args(v.inputs.take(i as int)),
            decreases b.inputs.len() - i,
        {
            let input = &b.inputs[i];
            let ghost iv = input.view();
            assert(v.inputs[i as int] == iv);
            let ghost done = input_args(v.inputs.take(i as int));
            let mut part = clone_strings(&input.options);
            let ghost p0 = part@;
            let dash_i = owned("-i");
            part.push(dash_i);
            let ghost p1 = part@;
            let path = input.path.clone();
            part.push(path);
            proof {
                lemma_strs_push(p0, dash_i);
                lemma_strs_push(p1, path);
                assert(strs(part@) =~= iv.options + seq!["-i"@, iv.path]);
            }
            let ghost a0 = strs(args@);
            let ghost pv = strs(part@);
            append_strings(&mut args, part);
            assert(v.inputs.take(i + 1).drop_last() =~= v.inputs.take(i as int));
            assert(v.inputs.take(i + 1).last() == iv);
            assert(input_args(v.inputs.take(i + 1)) == done + iv.options + seq!["-i"@, iv.path]);
            assert(strs(args@) =~= v.global + v.pre + input_args(v.inputs.take(i + 1)));
            i = i + 1;
        }
        assert(v.inputs.take(i as int) =~= v.inputs);
        append_strings(&mut args, b.post_input_args);
        let mut j: usize = 0;
        while j < b.outputs.len()
            invariant
                j <= b.outputs.len(),
                io_views(b.outputs@) == v.outputs,
                strs(args@) == v.global + v.pre + input_args(v.inputs) + v.post + output_args(
                    v.outputs.take(j as int),
                ),
            decreases b.outputs.len() - j,
        {
            let output = &b.outputs[j];
            let ghost ov = output.view();
            assert(v.outputs[j as int] == ov);
            let ghost done = output_args(v.outputs.take(j as int));
            let mut part = clone_strings(&output.options);
            let ghost p0 = part@;
            let path = output.path.clone();
            part.push(path);
            proof {
                lemma_strs_push(p0, path);
                assert(strs(part@) =~= ov.options + seq![ov.path]);
            }
            append_strings(&mut args, part);
            assert(v.outputs.take(j + 1).drop_last() =~= v.outputs.take(j as int));
            assert(v.outputs.take(j + 1).last() == ov);
            assert(output_args(v.outputs.take(j + 1)) == done + ov.options + seq![ov.path]);
            assert(strs(args@) =~= v.global + v.pre + input_args(v.inputs) + v.post + output_args(
                v.outputs.take(j + 1),
            ));
            j = j + 1;
        }
        assert(v.outputs.take(j as int) =~= v.outputs);
        Ok(FFmpegCommand { ffmpeg: b.ffmpeg, args })
    }
}

/// The state of an [`FFmpegCommand`] as a mathematical value.
pub struct CommandView {
    pub ffmpeg: FFMpeg,
    pub args: Seq<Seq<char>>,
}

/// Executable FFmpeg command
pub struct FFmpegCommand {
    ffmpeg: Arc<FFMpeg>,
    args: Vec<String>,
}

impl View for FFmpegCommand {
    type V = CommandView;

    closed spec fn view(&self) -> CommandView {
        CommandView { ffmpeg: *self.ffmpeg, args: strs(self.args@) }
    }
}

impl FFmpegCommand {
    /// Get the command arguments as a vector of strings
    pub fn args(&self) -> (res: &[String])
        ensures
            strs(res@) == self@.args,
    {
        self.args.as_slice()
    }

    /// The binaries this command runs with.
    pub fn ffmpeg(&self) -> (res: &FFMpeg)
        ensures
            *res == self@.ffmpeg,
    {
        &self.ffmpeg
    }

    /// Get the command as a string (for debugging/logging): `ffmpeg` and the arguments,
    /// separated by spaces
    pub fn to_string(&self) -> (res: String)
        ensures
            res@ == "ffmpeg "@ + join(self@.args, " "@),
    {
        let joined = join_strings(self.args.as_slice(), " ");
        concat("ffmpeg ", joined.as_str())
    }
}

} // verus!
