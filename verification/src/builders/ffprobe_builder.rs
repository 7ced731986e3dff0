//! Fluent builder for FFprobe command lines.
use vstd::prelude::*;
use std::sync::Arc;
use crate::builders::common::{ProbeFormat, StreamType};
use crate::builders::error::BuilderError;
use crate::ffmpeg::FFMpeg;
use crate::text::{concat, decimal, decimal_string, join, join_strings, owned, strs};

verus! {

/// The state of an [`FFprobeBuilder`] as a mathematical value.
pub struct ProbeBuilderView {
    pub ffmpeg: FFMpeg,
    pub input: Option<Seq<char>>,
    pub args: Seq<Seq<char>>,
    pub output_format: ProbeFormat,
}

/// FFprobe command builder with fluent API
pub struct FFprobeBuilder {
    ffmpeg: Arc<FFMpeg>,
    input: Option<String>,
    args: Vec<String>,
    output_format: ProbeFormat,
}

impl View for FFprobeBuilder {
    type V = ProbeBuilderView;

    closed spec fn view(&self) -> ProbeBuilderView {
        ProbeBuilderView {
            ffmpeg: *self.ffmpeg,
            input: match self.input {
                Some(s) => Some(s@),
                None => None,
            },
            args: strs(self.args@),
            output_format: self.output_format,
        }
    }
}

/// The state after `extra` is appended to the arguments.
pub open spec fn with_probe_args(v: ProbeBuilderView, extra: Seq<Seq<char>>) -> ProbeBuilderView {
    ProbeBuilderView { args: v.args + extra, ..v }
}

/// The full argument list of a probe command: the output format, the other arguments,
/// then `-i` and the input.
pub open spec fn probe_command_args(v: ProbeBuilderView, input: Seq<char>) -> Seq<Seq<char>> {
    seq!["-print_format"@, v.output_format.text()] + v.args + seq!["-i"@, input]
}

impl FFprobeBuilder {
    /// The state of a new probe builder for `ffmpeg`.
    pub open spec fn empty_view(ffmpeg: FFMpeg) -> ProbeBuilderView {
        ProbeBuilderView {
            ffmpeg,
            input: None,
            args: Seq::empty(),
            output_format: ProbeFormat::JSON,
        }
    }

    /// Create a new FFprobe command builder (JSON output by default)
    pub fn new(ffmpeg: Arc<FFMpeg>) -> (res: Self)
        ensures
            res@ == Self::empty_view(*ffmpeg),
    {
        let res = Self { ffmpeg, input: None, args: Vec::new(), output_format: ProbeFormat::JSON };
        assert(strs(res.args@) =~= Seq::<Seq<char>>::empty());
        res
    }

    fn push_args(self, extra: Vec<String>) -> (res: Self)
        ensures
            res@ == with_probe_args(self@, strs(extra@)),
    {
        let mut b = self;
        let ghost before = strs(b.args@);
        let ghost added = strs(extra@);
        let mut extra = extra;
        b.args.append(&mut extra);
        assert(strs(b.args@) =~= before + added);
        b
    }

    fn push_flag(self, flag: &str) -> (res: Self)
        ensures
            res@ == with_probe_args(self@, seq![flag@]),
    {
        let mut v: Vec<String> = Vec::new();
        v.push(owned(flag));
        assert(strs(v@) =~= seq![flag@]);
        self.push_args(v)
    }

    fn push_pair(self, flag: &str, value: String) -> (res: Self)
        ensures
            res@ == with_probe_args(self@, seq![flag@, value@]),
    {
        let mut v: Vec<String> = Vec::new();
        v.push(owned(flag));
        v.push(value);
        assert(strs(v@) =~= seq![flag@, value@]);
        self.push_args(v)
    }

    /// Set the input file to probe
    pub fn input(self, path: &str) -> (res: Result<Self, BuilderError>)
        ensures
            res matches Ok(b) && b@ == (ProbeBuilderView { input: Some(path@), ..self@ }),
    {
        let mut b = self;
        b.input = Some(owned(path));
        Ok(b)
    }

    /// Set the output format
    pub fn output_format(self, format: ProbeFormat) -> (res: Self)
        ensures
            res@ == (ProbeBuilderView { output_format: format, ..self@ }),
    {
        let mut b = self;
        b.output_format = format;
        b
    }

    /// Show stream information
    pub fn show_streams(self) -> (res: Self)
        ensures
            res@ == with_probe_args(self@, seq!["-show_streams"@]),
    {
        self.push_flag("-show_streams")
    }

    /// Show format information
    pub fn show_format(self) -> (res: Self)
        ensures
            res@ == with_probe_args(self@, seq!["-show_format"@]),
    {
        self.push_flag("-show_format")
    }

    /// Show chapter information
    pub fn show_chapters(self) -> (res: Self)
        ensures
            res@ == with_probe_args(self@, seq!["-show_chapters"@]),
    {
        self.push_flag("-show_chapters")
    }

    /// Show program information
    pub fn show_programs(self) -> (res: Self)
        ensures
            res@ == with_probe_args(self@, seq!["-show_programs"@]),
    {
        self.push_flag("-show_programs")
    }

    /// Show packet information
    pub fn show_packets(self) -> (res: Self)
        ensures
            res@ == with_probe_args(self@, seq!["-show_packets"@]),
    {
        self.push_flag("-show_packets")
    }

    /// Show frame information
    pub fn show_frames(self) -> (res: Self)
        ensures
            res@ == with_probe_args(self@, seq!["-show_frames"@]),
    {
        self.push_flag("-show_frames")
    }

    /// Select specific streams by type
    pub fn select_streams(self, stream_type: StreamType) -> (res: Self)
        ensures
            res@ == with_probe_args(self@, seq!["-select_streams"@, stream_type.text()]),
    {
        let t = stream_type.to_string();
        self.push_pair("-select_streams", t)
    }

    /// Count frames
    pub fn count_frames(self) -> (res: Self)
        ensures
            res@ == with_probe_args(self@, seq!["-count_frames"@]),
    {
        self.push_flag("-count_frames")
    }

    /// Count packets
    pub fn count_packets(self) -> (res: Self)
        ensures
            res@ == with_probe_args(self@, seq!["-count_packets"@]),
    {
        self.push_flag("-count_packets")
    }

    /// Show data in binary format
    pub fn show_data(self) -> (res: Self)
        ensures
            res@ == with_probe_args(self@, seq!["-show_data"@]),
    {
        self.push_flag("-show_data")
    }

    /// Show data hash
    pub fn show_data_hash(self, algorithm: &str) -> (res: Self)
        ensures
            res@ == with_probe_args(self@, seq!["-show_data_hash"@, algorithm@]),
    {
        self.push_pair("-show_data_hash", owned(algorithm))
    }

    /// Show private data
    pub fn show_private_data(self) -> (res: Self)
        ensures
            res@ == with_probe_args(self@, seq!["-show_private_data"@]),
    {
        self.push_flag("-show_private_data")
    }

    /// Show pixel formats
    pub fn show_pixel_format(self) -> (res: Self)
        ensures
            res@ == with_probe_args(self@, seq!["-show_pixel_formats"@]),
    {
        self.push_flag("-show_pixel_formats")
    }

    /// Set log level (numeric)
    pub fn log_level(self, level: u8) -> (res: Self)
        ensures
            res@ == with_probe_args(self@, seq!["-loglevel"@, decimal(level as nat)]),
    {
        self.push_pair("-loglevel", decimal_string(level as u64))
    }

    /// Hide banner
    pub fn hide_banner(self) -> (res: Self)
        ensures
            res@ == with_probe_args(self@, seq!["-hide_banner"@]),
    {
        self.push_flag("-hide_banner")
    }

    /// Pretty print output
    pub fn pretty(self) -> (res: Self)
        ensures
            res@ == with_probe_args(self@, seq!["-pretty"@]),
    {
        self.push_flag("-pretty")
    }

    /// Add a raw argument (escape hatch for unsupported options)
    pub fn raw_arg(self, arg: &str) -> (res: Self)
        ensures
            res@ == with_probe_args(self@, seq![arg@]),
    {
        self.push_flag(arg)
    }

    /// Add multiple raw arguments
    pub fn raw_args(self, args: Vec<String>) -> (res: Self)
        ensures
            res@ == with_probe_args(self@, strs(args@)),
    {
        self.push_args(args)
    }

    /// Build the command: fails without an input; otherwise the arguments are
    /// `-print_format` with the output format, the other arguments, `-i` and the input.
    pub fn build(self) -> (res: Result<FFprobeCommand, BuilderError>)
        ensures
            self@.input is None ==> res == Err::<FFprobeCommand, BuilderError>(
                BuilderError::NoInput,
            ),
            self@.input matches Some(input) ==> (res matches Ok(cmd) && cmd@.ffmpeg == self@.ffmpeg
                && cmd@.output_format == self@.output_format && cmd@.args == probe_command_args(
                self@,
                input,
            )),
    {
        match self.input {
            None => Err(BuilderError::NoInput),
            Some(input) => {
                let ghost old_args = strs(self.args@);
                let mut args: Vec<String> = Vec::new();
                args.push(owned("-print_format"));
                args.push(self.output_format.to_string());
                let mut rest = self.args;
                args.append(&mut rest);
                args.push(owned("-i"));
                args.push(input);
                assert(strs(args@) =~= seq!["-print_format"@, self.output_format.text()] + old_args
                    + seq!["-i"@, input@]);
                Ok(FFprobeCommand { ffmpeg: self.ffmpeg, args, output_format: self.output_format })
            },
        }
    }
}

/// The state of an [`FFprobeCommand`] as a mathematical value.
pub struct ProbeCommandView {
    pub ffmpeg: FFMpeg,
    pub args: Seq<Seq<char>>,
    pub output_format: ProbeFormat,
}

/// Executable FFprobe command
pub struct FFprobeCommand {
    ffmpeg: Arc<FFMpeg>,
    args: Vec<String>,
    output_format: ProbeFormat,
}

impl View for FFprobeCommand {
    type V = ProbeCommandView;

    closed spec fn view(&self) -> ProbeCommandView {
        ProbeCommandView {
            ffmpeg: *self.ffmpeg,
            args: strs(self.args@),
            output_format: self.output_format,
        }
    }
}

impl FFprobeCommand {
    /// Get the command arguments as a vector of strings
    pub fn args(&self) -> (res: &[String])
        ensures
            strs(res@) == self@.args,
    {
        self.args.as_slice()
    }

    /// The output format the command asks for.
    pub fn output_format(&self) -> (res: ProbeFormat)
        ensures
            res == self@.output_format,
    {
        self.output_format
    }

    /// The binaries this command runs with.
    pub fn ffmpeg(&self) -> (res: &FFMpeg)
        ensures
            *res == self@.ffmpeg,
    {
        &self.ffmpeg
    }

    /// Checks that the command's output can be read as JSON: its output format must be
    /// JSON, else the error `Invalid option: Output format must be JSON to use execute_json()`.
    pub fn check_json_output(&self) -> (res: Result<(), BuilderError>)
        ensures
            self@.output_format == ProbeFormat::JSON ==> res is Ok,
            self@.output_format != ProbeFormat::JSON ==> (res matches Err(BuilderError::InvalidOption(m))
                && m@ == "Output format must be JSON to use execute_json()"@),
    {
        match self.output_format {
            ProbeFormat::JSON => Ok(()),
            _ => Err(BuilderError::InvalidOption(owned("Output format must be JSON to use execute_json()"))),
        }
    }

    /// The command as a string: `ffprobe` and the arguments, separated by spaces
    pub fn to_string(&self) -> (res: String)
        ensures
            res@ == "ffprobe "@ + join(self@.args, " "@),
    {
        let joined = join_strings(self.args.as_slice(), " ");
        concat("ffprobe ", joined.as_str())
    }
}

} // verus!
