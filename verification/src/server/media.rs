//! Media files: which files are videos, what is recorded of a probed file, how its frame
//! count is read, how the scanner reports its progress and how a scanned file's job is
//! prioritised.
use vstd::prelude::*;
use vstd::string::StringSliceAdditionalSpecFns;
use vstd::utf8::is_char_boundary;
use crate::numbers::{parse_u64, parsed_unsigned};
use crate::builders::common::ProbeFormat;
use crate::builders::error::BuilderError;
use crate::builders::ffprobe_builder::FFprobeCommand;
use crate::builders::probe_result::{
    first_video_index, first_video_stream, lemma_no_video_index, video_resolution, FormatSummary,
    StreamSummary,
};
use crate::ffmpeg::FFMpeg;
use crate::server::files::{extension_of, path_extension};
use crate::text::{lowercase_of, to_lowercase, lemma_strs_push};
use crate::text::{
    byte_len, bytes_before, contains, contains_str, ellipsis_head, last_piece, owned,
    piece_after, split_whitespace, split_ws, str_eq, strs,
};

verus! {

/// Progress information for media file scanning.
#[derive(Debug, Clone)]
pub struct ScanProgress {
    /// Total number of files to process.
    pub total_files: usize,
    /// Number of files completed.
    pub completed_files: usize,
    /// Current file being processed (if any).
    pub current_file: Option<String>,
    /// Current operation description.
    pub operation: String,
}

impl ScanProgress {
    /// Progress of an operation whose number of files is not known yet.
    pub fn new(operation: &str) -> (res: Self)
        ensures
            res.total_files == 0,
            res.completed_files == 0,
            res.current_file is None,
            res.operation@ == operation@,
    {
        ScanProgress { total_files: 0, completed_files: 0, current_file: None, operation: owned(operation) }
    }

    /// Progress of an operation over `total` files, none of them done yet.
    pub fn with_total(operation: &str, total: usize) -> (res: Self)
        ensures
            res.total_files == total,
            res.completed_files == 0,
            res.current_file is None,
            res.operation@ == operation@,
    {
        ScanProgress { total_files: total, completed_files: 0, current_file: None, operation: owned(operation) }
    }

    /// Progress while probing `file`, with `completed` of `total` files done.
    pub fn probing(total: usize, completed: usize, file: String) -> (res: Self)
        ensures
            res.total_files == total,
            res.completed_files == completed,
            res.current_file matches Some(f) && f@ == file@,
            res.operation@ == "Probing files"@,
    {
        ScanProgress {
            total_files: total,
            completed_files: completed,
            current_file: Some(file),
            operation: owned("Probing files"),
        }
    }

    /// The end of a scan over `total` files: all of them done.
    pub fn complete(total: usize) -> (res: Self)
        ensures
            res.total_files == total,
            res.completed_files == total,
            res.current_file is None,
            res.operation@ == "Complete"@,
    {
        ScanProgress { total_files: total, completed_files: total, current_file: None, operation: owned("Complete") }
    }
}

/// The counts of a scan's probing phase: how many files are to be probed, how many are
/// done, and how many of those were recorded with a job.
pub struct ScanTally {
    total: usize,
    completed: usize,
    inserted: usize,
}

impl ScanTally {
    #[verifier::type_invariant]
    closed spec fn counts_fit(self) -> bool {
        self.inserted <= self.completed <= self.total
    }

    /// The number of files to probe.
    pub closed spec fn total(self) -> nat {
        self.total as nat
    }

    /// The number of files done.
    pub closed spec fn completed(self) -> nat {
        self.completed as nat
    }

    /// The number of files done that were recorded with a job.
    pub closed spec fn inserted(self) -> nat {
        self.inserted as nat
    }

    /// Starts probing the `total` files the walk found: with none, the scan is complete at
    /// once (the report `Complete` with no files); else the report `Probing files` with
    /// the total and a tally with nothing done.
    pub fn start(total: usize) -> (res: (Option<ScanTally>, ScanProgress))
        ensures
            total == 0 ==> res.0 is None && res.1.total_files == 0 && res.1.completed_files == 0
                && res.1.current_file is None && res.1.operation@ == "Complete"@,
            total > 0 ==> (res.0 matches Some(t) && t.total() == total && t.completed() == 0
                && t.inserted() == 0) && res.1.total_files == total && res.1.completed_files == 0
                && res.1.current_file is None && res.1.operation@ == "Probing files"@,
    {
        if total == 0 {
            (None, ScanProgress::complete(0))
        } else {
            (Some(ScanTally { total, completed: 0, inserted: 0 }), ScanProgress::with_total("Probing files", total))
        }
    }

    /// The report sent when probing of `file` begins: the total, the files done so far
    /// and the file.
    pub fn progress_for(&self, file: String) -> (res: ScanProgress)
        ensures
            res.total_files == self.total(),
            res.completed_files == self.completed(),
            res.current_file matches Some(f) && f@ == file@,
            res.operation@ == "Probing files"@,
    {
        ScanProgress::probing(self.total, self.completed, file)
    }

    /// Counts one more file done, recorded with a job or not.
    pub fn record(&mut self, inserted: bool)
        requires
            old(self).completed() < old(self).total(),
        ensures
            final(self).total() == old(self).total(),
            final(self).completed() == old(self).completed() + 1,
            final(self).inserted() == old(self).inserted() + if inserted { 1nat } else { 0nat },
    {
        proof {
            use_type_invariant(&*self);
        }
        self.completed = self.completed + 1;
        if inserted {
            self.inserted = self.inserted + 1;
        }
    }

    /// The end of the scan: the report `Complete` with every file done, and the number
    /// of files recorded with a job.
    pub fn finish(&self) -> (res: (ScanProgress, usize))
        ensures
            res.0.total_files == self.total(),
            res.0.completed_files == self.total(),
            res.0.current_file is None,
            res.0.operation@ == "Complete"@,
            res.1 == self.inserted(),
            res.1 <= self.completed() <= self.total(),
    {
        proof {
            use_type_invariant(self);
        }
        (ScanProgress::complete(self.total), self.inserted)
    }
}

/// Whether a file the walk found is probed: its extension must be a video extension
/// (see [`Scanner::is_video_extension`]), and it must need probing, which a file whose
/// stored record could not be looked up (`needs_probing` is `None`) does.
pub fn should_probe(extension: Option<&str>, needs_probing: Option<bool>) -> (res: bool)
    ensures
        res == (extension matches Some(e) && video_extension_names().contains(e@) && match needs_probing {
            Some(b) => b,
            None => true,
        }),
{
    match extension {
        None => false,
        Some(e) => Scanner::is_video_extension(e) && match needs_probing {
            Some(b) => b,
            None => true,
        },
    }
}

/// The file name extensions of video files.
pub open spec fn video_extension_names() -> Seq<Seq<char>> {
    seq![
        "webm"@, "mkv"@, "flv"@, "flv"@, "vob"@, "ogv"@, "ogg"@, "drc"@, "gif"@, "gifv"@,
        "mng"@, "avi"@, "mts"@, "m2ts"@, "ts"@, "mov"@, "qt"@, "wmv"@, "yuv"@, "rm"@,
        "rmvb"@, "viv"@, "asf"@, "amv"@, "mp4"@, "m4p"@, "m4v"@, "mpg"@, "mp2"@, "mpeg"@,
        "mpe"@, "mpv"@, "mpg"@, "mpeg"@, "m2v"@, "m4v"@, "svi"@, "3gp"@, "3g2"@, "mxf"@,
        "roq"@, "nsv"@, "flv"@, "f4v"@, "f4p"@, "f4a"@, "f4b"@,
    ]
}

/// Files with any of these extensions are video files to the scanner and the watcher
/// (through [`Scanner::is_video_extension`] and [`is_video_file`]): webm, mkv, flv, vob,
/// ogv, ogg, drc, gif, gifv, mng, avi, mts, m2ts, ts, mov, qt, wmv, yuv, rm, rmvb, viv,
/// asf, amv, mp4, m4p, m4v, mpg, mp2, mpeg, mpe, mpv, m2v, svi, 3gp, 3g2, mxf, roq, nsv,
/// f4v, f4p, f4a and f4b.
pub proof fn video_extensions_known()
    ensures
        video_extension_names().contains("webm"@),
        video_extension_names().contains("mkv"@),
        video_extension_names().contains("flv"@),
        video_extension_names().contains("vob"@),
        video_extension_names().contains("ogv"@),
        video_extension_names().contains("ogg"@),
        video_extension_names().contains("drc"@),
        video_extension_names().contains("gif"@),
        video_extension_names().contains("gifv"@),
        video_extension_names().contains("mng"@),
        video_extension_names().contains("avi"@),
        video_extension_names().contains("mts"@),
        video_extension_names().contains("m2ts"@),
        video_extension_names().contains("ts"@),
        video_extension_names().contains("mov"@),
        video_extension_names().contains("qt"@),
        video_extension_names().contains("wmv"@),
        video_extension_names().contains("yuv"@),
        video_extension_names().contains("rm"@),
        video_extension_names().contains("rmvb"@),
        video_extension_names().contains("viv"@),
        video_extension_names().contains("asf"@),
        video_extension_names().contains("amv"@),
        video_extension_names().contains("mp4"@),
        video_extension_names().contains("m4p"@),
        video_extension_names().contains("m4v"@),
        video_extension_names().contains("mpg"@),
        video_extension_names().contains("mp2"@),
        video_extension_names().contains("mpeg"@),
        video_extension_names().contains("mpe"@),
        video_extension_names().contains("mpv"@),
        video_extension_names().contains("m2v"@),
        video_extension_names().contains("svi"@),
        video_extension_names().contains("3gp"@),
        video_extension_names().contains("3g2"@),
        video_extension_names().contains("mxf"@),
        video_extension_names().contains("roq"@),
        video_extension_names().contains("nsv"@),
        video_extension_names().contains("f4v"@),
        video_extension_names().contains("f4p"@),
        video_extension_names().contains("f4a"@),
        video_extension_names().contains("f4b"@),
{
    assert(video_extension_names()[0] == "webm"@);
    assert(video_extension_names()[1] == "mkv"@);
    assert(video_extension_names()[2] == "flv"@);
    assert(video_extension_names()[4] == "vob"@);
    assert(video_extension_names()[5] == "ogv"@);
    assert(video_extension_names()[6] == "ogg"@);
    assert(video_extension_names()[7] == "drc"@);
    assert(video_extension_names()[8] == "gif"@);
    assert(video_extension_names()[9] == "gifv"@);
    assert(video_extension_names()[10] == "mng"@);
    assert(video_extension_names()[11] == "avi"@);
    assert(video_extension_names()[12] == "mts"@);
    assert(video_extension_names()[13] == "m2ts"@);
    assert(video_extension_names()[14] == "ts"@);
    assert(video_extension_names()[15] == "mov"@);
    assert(video_extension_names()[16] == "qt"@);
    assert(video_extension_names()[17] == "wmv"@);
    assert(video_extension_names()[18] == "yuv"@);
    assert(video_extension_names()[19] == "rm"@);
    assert(video_extension_names()[20] == "rmvb"@);
    assert(video_extension_names()[21] == "viv"@);
    assert(video_extension_names()[22] == "asf"@);
    assert(video_extension_names()[23] == "amv"@);
    assert(video_extension_names()[24] == "mp4"@);
    assert(video_extension_names()[25] == "m4p"@);
    assert(video_extension_names()[26] == "m4v"@);
    assert(video_extension_names()[27] == "mpg"@);
    assert(video_extension_names()[28] == "mp2"@);
    assert(video_extension_names()[29] == "mpeg"@);
    assert(video_extension_names()[30] == "mpe"@);
    assert(video_extension_names()[31] == "mpv"@);
    assert(video_extension_names()[34] == "m2v"@);
    assert(video_extension_names()[36] == "svi"@);
    assert(video_extension_names()[37] == "3gp"@);
    assert(video_extension_names()[38] == "3g2"@);
    assert(video_extension_names()[39] == "mxf"@);
    assert(video_extension_names()[40] == "roq"@);
    assert(video_extension_names()[41] == "nsv"@);
    assert(video_extension_names()[43] == "f4v"@);
    assert(video_extension_names()[44] == "f4p"@);
    assert(video_extension_names()[45] == "f4a"@);
    assert(video_extension_names()[46] == "f4b"@);
}

/// No other extension is a video extension: a video extension is one of those of
/// [`video_extensions_known`].
pub proof fn video_extensions_only()
    ensures
        forall|e: Seq<char>| #[trigger] video_extension_names().contains(e) ==> (e == "webm"@ || e == "mkv"@ || e == "flv"@ || e == "vob"@ || e == "ogv"@ || e == "ogg"@ || e == "drc"@ || e == "gif"@ || e == "gifv"@ || e == "mng"@ || e == "avi"@ || e == "mts"@ || e == "m2ts"@ || e == "ts"@ || e == "mov"@ || e == "qt"@ || e == "wmv"@ || e == "yuv"@ || e == "rm"@ || e == "rmvb"@ || e == "viv"@ || e == "asf"@ || e == "amv"@ || e == "mp4"@ || e == "m4p"@ || e == "m4v"@ || e == "mpg"@ || e == "mp2"@ || e == "mpeg"@ || e == "mpe"@ || e == "mpv"@ || e == "m2v"@ || e == "svi"@ || e == "3gp"@ || e == "3g2"@ || e == "mxf"@ || e == "roq"@ || e == "nsv"@ || e == "f4v"@ || e == "f4p"@ || e == "f4a"@ || e == "f4b"@),
{
    let names = video_extension_names();
    assert forall|e: Seq<char>| #[trigger] names.contains(e) implies (e == "webm"@ || e == "mkv"@ || e == "flv"@ || e == "vob"@ || e == "ogv"@ || e == "ogg"@ || e == "drc"@ || e == "gif"@ || e == "gifv"@ || e == "mng"@ || e == "avi"@ || e == "mts"@ || e == "m2ts"@ || e == "ts"@ || e == "mov"@ || e == "qt"@ || e == "wmv"@ || e == "yuv"@ || e == "rm"@ || e == "rmvb"@ || e == "viv"@ || e == "asf"@ || e == "amv"@ || e == "mp4"@ || e == "m4p"@ || e == "m4v"@ || e == "mpg"@ || e == "mp2"@ || e == "mpeg"@ || e == "mpe"@ || e == "mpv"@ || e == "m2v"@ || e == "svi"@ || e == "3gp"@ || e == "3g2"@ || e == "mxf"@ || e == "roq"@ || e == "nsv"@ || e == "f4v"@ || e == "f4p"@ || e == "f4a"@ || e == "f4b"@) by {
        let i = choose|i: int| 0 <= i < names.len() && names[i] == e;
        if i == 0 {
            assert(names[0] == "webm"@);
        } else if i == 1 {
            assert(names[1] == "mkv"@);
        } else if i == 2 {
            assert(names[2] == "flv"@);
        } else if i == 3 {
            assert(names[3] == "flv"@);
        } else if i == 4 {
            assert(names[4] == "vob"@);
        } else if i == 5 {
            assert(names[5] == "ogv"@);
        } else if i == 6 {
            assert(names[6] == "ogg"@);
        } else if i == 7 {
            assert(names[7] == "drc"@);
        } else if i == 8 {
            assert(names[8] == "gif"@);
        } else if i == 9 {
            assert(names[9] == "gifv"@);
        } else if i == 10 {
            assert(names[10] == "mng"@);
        } else if i == 11 {
            assert(names[11] == "avi"@);
        } else if i == 12 {
            assert(names[12] == "mts"@);
        } else if i == 13 {
            assert(names[13] == "m2ts"@);
        } else if i == 14 {
            assert(names[14] == "ts"@);
        } else if i == 15 {
            assert(names[15] == "mov"@);
        } else if i == 16 {
            assert(names[16] == "qt"@);
        } else if i == 17 {
            assert(names[17] == "wmv"@);
        } else if i == 18 {
            assert(names[18] == "yuv"@);
        } else if i == 19 {
            assert(names[19] == "rm"@);
        } else if i == 20 {
            assert(names[20] == "rmvb"@);
        } else if i == 21 {
            assert(names[21] == "viv"@);
        } else if i == 22 {
            assert(names[22] == "asf"@);
        } else if i == 23 {
            assert(names[23] == "amv"@);
        } else if i == 24 {
            assert(names[24] == "mp4"@);
        } else if i == 25 {
            assert(names[25] == "m4p"@);
        } else if i == 26 {
            assert(names[26] == "m4v"@);
        } else if i == 27 {
            assert(names[27] == "mpg"@);
        } else if i == 28 {
            assert(names[28] == "mp2"@);
        } else if i == 29 {
            assert(names[29] == "mpeg"@);
        } else if i == 30 {
            assert(names[30] == "mpe"@);
        } else if i == 31 {
            assert(names[31] == "mpv"@);
        } else if i == 32 {
            assert(names[32] == "mpg"@);
        } else if i == 33 {
            assert(names[33] == "mpeg"@);
        } else if i == 34 {
            assert(names[34] == "m2v"@);
        } else if i == 35 {
            assert(names[35] == "m4v"@);
        } else if i == 36 {
            assert(names[36] == "svi"@);
        } else if i == 37 {
            assert(names[37] == "3gp"@);
        } else if i == 38 {
            assert(names[38] == "3g2"@);
        } else if i == 39 {
            assert(names[39] == "mxf"@);
        } else if i == 40 {
            assert(names[40] == "roq"@);
        } else if i == 41 {
            assert(names[41] == "nsv"@);
        } else if i == 42 {
            assert(names[42] == "flv"@);
        } else if i == 43 {
            assert(names[43] == "f4v"@);
        } else if i == 44 {
            assert(names[44] == "f4p"@);
        } else if i == 45 {
            assert(names[45] == "f4a"@);
        } else if i == 46 {
            assert(names[46] == "f4b"@);
        }
    }
}

/// The file name extensions of video files, in the order they are checked.
fn video_extensions() -> (res: Vec<&'static str>)
    ensures
        res@.map_values(|e: &str| e@) == video_extension_names(),
{
    let v: Vec<&'static str> = vec![
        "webm", "mkv", "flv", "flv", "vob", "ogv", "ogg", "drc", "gif", "gifv", "mng", "avi",
        "mts", "m2ts", "ts", "mov", "qt", "wmv", "yuv", "rm", "rmvb", "viv", "asf", "amv", "mp4",
        "m4p", "m4v", "mpg", "mp2", "mpeg", "mpe", "mpv", "mpg", "mpeg", "m2v", "m4v", "svi",
        "3gp", "3g2", "mxf", "roq", "nsv", "flv", "f4v", "f4p", "f4a", "f4b",
    ];
    assert(v@.map_values(|e: &str| e@) =~= video_extension_names());
    v
}

/// The media file scanner.
pub struct Scanner;

impl Scanner {
    /// Whether a file with the given extension (without the dot) is a video file. The
    /// comparison is exact: `MKV` is not `mkv`.
    pub fn is_video_extension(extension: &str) -> (res: bool)
        ensures
            res == video_extension_names().contains(extension@),
    {
        let exts = video_extensions();
        let ghost names = video_extension_names();
        let mut k: usize = 0;
        while k < exts.len()
            invariant
                k <= exts.len(),
                exts@.map_values(|e: &str| e@) == names,
                names == video_extension_names(),
                forall|m: int| 0 <= m < k ==> names[m] != extension@,
            decreases exts.len() - k,
        {
            assert(names[k as int] == exts@[k as int]@);
            if str_eq(exts[k], extension) {
                assert(names[k as int] == extension@);
                return true;
            }
            k = k + 1;
        }
        assert(!names.contains(extension@)) by {
            if names.contains(extension@) {
                let m = choose|m: int| 0 <= m < names.len() && names[m] == extension@;
                assert(names[m] != extension@);
            }
        }
        false
    }

    /// The name shown for a file being probed: the file name when it holds at most 50
    /// bytes, else its first 47 bytes followed by `...`.
    pub fn display_name(filename: &str) -> (res: String)
        requires
            filename.spec_bytes().len() <= usize::MAX,
            filename.spec_bytes().len() <= 50 || is_char_boundary(filename.spec_bytes(), 47),
        ensures
            byte_len(filename@) <= 50 ==> res@ == filename@,
            byte_len(filename@) > 50 ==> res@ == bytes_before(filename@, 47) + "..."@,
    {
        ellipsis_head(filename, 47, 50)
    }

    /// The priority of the job made for a scanned file: its size plus its encoding
    /// complexity, each read as a signed 64-bit number (values above `i64::MAX` wrap to
    /// negative ones), the sum saturating at the bounds of `i64`.
    pub fn job_priority(scanned_size: u64, encoding_complexity: u64) -> (res: i64)
        ensures
            res == saturate(as_signed(scanned_size) + as_signed(encoding_complexity)),
    {
        let a = to_signed(scanned_size);
        let b = to_signed(encoding_complexity);
        match a.checked_add(b) {
            Some(s) => s,
            None => {
                if a > 0 {
                    i64::MAX
                } else {
                    i64::MIN
                }
            },
        }
    }
}

/// Whether a file must be probed (again): its modification time (seconds since the
/// Unix epoch) is later than the one stored for it, read as unsigned (0 when none is
/// stored).
pub fn needs_probing(modified_secs: u64, stored_last_modified: Option<i64>) -> (res: bool)
    ensures
        res == (modified_secs > as_unsigned(match stored_last_modified {
            Some(t) => t,
            None => 0,
        })),
{
    let stored: i64 = match stored_last_modified {
        Some(t) => t,
        None => 0,
    };
    let u: u64 = if stored >= 0 {
        stored as u64
    } else {
        let m: u64 = (-(stored + 1)) as u64;
        0xffff_ffff_ffff_ffff - m
    };
    modified_secs > u
}

/// An `i64` read as a `u64` (two's complement: negative values wrap).
pub open spec fn as_unsigned(x: i64) -> int {
    if x >= 0 {
        x as int
    } else {
        x + 0x1_0000_0000_0000_0000
    }
}

/// The file at `path` is a video for the file watcher: its extension, in lower case,
/// is a video file extension.
pub open spec fn is_watched_video(path: Seq<char>) -> bool {
    extension_of(path) matches Some(e) && video_extension_names().contains(lowercase_of(e))
}

/// Whether the file watcher treats the file at `path` as a video (see
/// [`is_watched_video`]).
pub fn is_video_file(path: &str) -> (res: bool)
    ensures
        res == is_watched_video(path@),
{
    match path_extension(path) {
        Some(e) => {
            let lower = to_lowercase(e.as_str());
            Scanner::is_video_extension(lower.as_str())
        },
        None => false,
    }
}

/// The priority of the job the file watcher makes for a new file: its size times its
/// encoding complexity, each read as a signed 64-bit number.
pub fn watch_priority(scanned_size: u64, encoding_complexity: u64) -> (res: i64)
    requires
        i64::MIN <= as_signed(scanned_size) * as_signed(encoding_complexity) <= i64::MAX,
    ensures
        res == as_signed(scanned_size) * as_signed(encoding_complexity),
{
    let a = to_signed(scanned_size);
    let b = to_signed(encoding_complexity);
    a * b
}

/// The kind of a file system change.
#[derive(Debug, Clone, Copy, PartialEq, Eq, Structural)]
pub enum FsEventKind {
    Create,
    Remove,
    Other,
}

/// A file system change reported by the watcher, for one or more paths.
#[derive(Debug)]
pub struct FsEvent {
    pub kind: FsEventKind,
    pub paths: Vec<String>,
}

/// What the file watcher does about a changed video file.
#[derive(Debug, PartialEq, Eq)]
pub enum WatchAction {
    /// Probe the new file and make a job for it, if it needs probing.
    Probe(String),
    /// Forget the removed file (and its jobs).
    Forget(String),
}

/// The actions for the paths of one event, in order: for each video file, probe it when
/// created, forget it when removed; other changes and files are ignored.
pub open spec fn event_actions(kind: FsEventKind, paths: Seq<Seq<char>>) -> Seq<(bool, Seq<char>)>
    decreases paths.len(),
{
    if paths.len() == 0 {
        Seq::empty()
    } else {
        event_actions(kind, paths.drop_last()) + if kind != FsEventKind::Other && is_watched_video(
            paths.last(),
        ) {
            seq![(kind == FsEventKind::Create, paths.last())]
        } else {
            Seq::empty()
        }
    }
}

/// An action as a pair: whether it probes (else it forgets), and the path.
pub open spec fn action_pair(a: WatchAction) -> (bool, Seq<char>) {
    match a {
        WatchAction::Probe(p) => (true, p@),
        WatchAction::Forget(p) => (false, p@),
    }
}

/// The actions for one event (see [`event_actions`]).
fn plan_event(event: &FsEvent, out: &mut Vec<WatchAction>)
    ensures
        final(out)@.map_values(|a: WatchAction| action_pair(a)) == old(out)@.map_values(
            |a: WatchAction| action_pair(a),
        ) + event_actions(event.kind, strs(event.paths@)),
{
    let mut k: usize = 0;
    let ghost base = out@.map_values(|a: WatchAction| action_pair(a));
    assert(strs(event.paths@).take(0) =~= Seq::<Seq<char>>::empty());
    assert(base + Seq::<(bool, Seq<char>)>::empty() =~= base);
    while k < event.paths.len()
        invariant
            k <= event.paths.len(),
            out@.map_values(|a: WatchAction| action_pair(a)) == base + event_actions(
                event.kind,
                strs(event.paths@).take(k as int),
            ),
        decreases event.paths.len() - k,
    {
        let ghost t = strs(event.paths@).take(k + 1);
        assert(t.drop_last() =~= strs(event.paths@).take(k as int));
        assert(t.last() == event.paths@[k as int]@);
        let ghost before = out@;
        let kind = event.kind;
        if kind != FsEventKind::Other && is_video_file(event.paths[k].as_str()) {
            let p = event.paths[k].clone();
            let a = if kind == FsEventKind::Create {
                WatchAction::Probe(p)
            } else {
                WatchAction::Forget(p)
            };
            out.push(a);
            assert(out@.map_values(|a: WatchAction| action_pair(a)) =~= before.map_values(
                |a: WatchAction| action_pair(a),
            ).push(action_pair(a)));
        }
        k = k + 1;
    }
    assert(strs(event.paths@).take(event.paths.len() as int) =~= strs(event.paths@));
}

/// The actions for a batch of events, in order (see [`event_actions`]).
pub open spec fn batch_actions(events: Seq<FsEvent>) -> Seq<(bool, Seq<char>)>
    decreases events.len(),
{
    if events.len() == 0 {
        Seq::empty()
    } else {
        batch_actions(events.drop_last()) + event_actions(events.last().kind, strs(events.last().paths@))
    }
}

/// What the file watcher does about a batch of file system changes: for each event in
/// order, each created video file is probed and each removed one forgotten.
pub fn plan_batch(events: &[FsEvent]) -> (res: Vec<WatchAction>)
    ensures
        res@.map_values(|a: WatchAction| action_pair(a)) == batch_actions(events@),
{
    let mut out: Vec<WatchAction> = Vec::new();
    let mut k: usize = 0;
    assert(out@.map_values(|a: WatchAction| action_pair(a)) =~= batch_actions(events@.take(0)));
    while k < events.len()
        invariant
            k <= events.len(),
            out@.map_values(|a: WatchAction| action_pair(a)) == batch_actions(events@.take(k as int)),
        decreases events.len() - k,
    {
        let ghost t = events@.take(k + 1);
        assert(t.drop_last() =~= events@.take(k as int));
        assert(t.last() == events@[k as int]);
        plan_event(&events[k], &mut out);
        k = k + 1;
    }
    assert(events@.take(events.len() as int) =~= events@);
    out
}

/// A `u64` read as an `i64` (two's complement: values above `i64::MAX` wrap).
pub open spec fn as_signed(x: u64) -> int {
    if x <= i64::MAX {
        x as int
    } else {
        x - 0x1_0000_0000_0000_0000
    }
}

/// `n` clamped to the range of `i64`.
pub open spec fn saturate(n: int) -> int {
    if n > i64::MAX {
        i64::MAX as int
    } else if n < i64::MIN {
        i64::MIN as int
    } else {
        n
    }
}

/// A `u64` read as an `i64` (what `x as i64` gives).
fn to_signed(x: u64) -> (res: i64)
    ensures
        res == as_signed(x),
{
    if x <= 0x7fff_ffff_ffff_ffff {
        x as i64
    } else {
        let d: u64 = 0xffff_ffff_ffff_ffff - x;
        -(d as i64) - 1
    }
}

/// The frame count a probed stream gives, from its `nb_frames` field, else its
/// `NUMBER_OF_FRAMES` tag, else its `NUMBER_OF_FRAMES-eng` tag: the first of these that
/// is present and reads as a number.
pub open spec fn probe_frame_count(
    nb_frames: Option<Seq<char>>,
    tag: Option<Seq<char>>,
    tag_eng: Option<Seq<char>>,
) -> Option<nat> {
    if nb_frames is Some && parsed_unsigned(nb_frames->Some_0, u64::MAX as nat) is Some {
        parsed_unsigned(nb_frames->Some_0, u64::MAX as nat)
    } else if tag is Some && parsed_unsigned(tag->Some_0, u64::MAX as nat) is Some {
        parsed_unsigned(tag->Some_0, u64::MAX as nat)
    } else if tag_eng is Some && parsed_unsigned(tag_eng->Some_0, u64::MAX as nat) is Some {
        parsed_unsigned(tag_eng->Some_0, u64::MAX as nat)
    } else {
        None
    }
}

/// The view of an optional string slice.
pub open spec fn opt_view(s: Option<&str>) -> Option<Seq<char>> {
    match s {
        Some(t) => Some(t@),
        None => None,
    }
}

/// Reads a stream's frame count from its probe fields (see [`probe_frame_count`]);
/// `None` when none of them gives one, and the count must then be found by decoding.
pub fn frame_count_from_probe(nb_frames: Option<&str>, tag: Option<&str>, tag_eng: Option<&str>) -> (res:
    Option<u64>)
    ensures
        match probe_frame_count(opt_view(nb_frames), opt_view(tag), opt_view(tag_eng)) {
            Some(n) => res == Some(n as u64),
            None => res is None,
        },
{
    if let Some(s) = nb_frames {
        if let Some(n) = parse_u64(s) {
            return Some(n);
        }
    }
    if let Some(s) = tag {
        if let Some(n) = parse_u64(s) {
            return Some(n);
        }
    }
    if let Some(s) = tag_eng {
        if let Some(n) = parse_u64(s) {
            return Some(n);
        }
    }
    None
}

/// The frame count an FFmpeg output line reports: the line must hold `frame=`; the
/// first word after its last `frame=` must read as a number.
pub open spec fn frame_in_output(line: Seq<char>) -> Option<nat> {
    let words = split_ws(piece_after(line, "frame="@, Seq::empty()));
    if contains(line, "frame="@) && words.len() > 0 {
        parsed_unsigned(words[0], u64::MAX as nat)
    } else {
        None
    }
}

/// The frame count an FFmpeg output line reports, if any (see [`frame_in_output`]).
pub fn frame_count_in_output(line: &str) -> (res: Option<u64>)
    ensures
        match frame_in_output(line@) {
            Some(n) => res == Some(n as u64),
            None => res is None,
        },
{
    proof {
        reveal_strlit("frame=");
    }
    if !contains_str(line, "frame=") {
        return None;
    }
    let section = last_piece(line, "frame=");
    let words = split_whitespace(section.as_str());
    if words.len() == 0 {
        return None;
    }
    assert(strs(words@)[0] == words@[0]@);
    parse_u64(words[0].as_str())
}

/// The frame count known after one more line of FFmpeg output: the line's count when it
/// reports one, else the count known before.
pub fn latest_frame_count(known: Option<u64>, line: &str) -> (res: Option<u64>)
    ensures
        match frame_in_output(line@) {
            Some(n) => res == Some(n as u64),
            None => res == known,
        },
{
    match frame_count_in_output(line) {
        Some(n) => Some(n),
        None => known,
    }
}

/// The probe run on a media file when it is scanned: `-print_format json -show_streams
/// -loglevel 1 -show_format -i` and the file.
pub fn media_probe_command(ffmpeg: &FFMpeg, path: &str) -> (res: Result<FFprobeCommand, BuilderError>)
    ensures
        res matches Ok(cmd) && cmd@.ffmpeg == *ffmpeg && cmd@.output_format == ProbeFormat::JSON
            && cmd@.args == seq![
            "-print_format"@, "json"@, "-show_streams"@, "-loglevel"@, "1"@, "-show_format"@, "-i"@,
            path@,
        ],
{
    let b = ffmpeg.ffprobe_command_builder().input(path)?;
    let b = b.show_streams().log_level(1).output_format(ProbeFormat::JSON).show_format();
    proof {
        reveal_strlit("1");
        assert(crate::text::decimal(1) =~= "1"@);
    }
    b.build()
}

/// What is recorded of a media file from its probe: its path, its size and bit rate as
/// scanned, its resolution, and its number of frames when the probe gives it.
#[derive(Debug)]
pub struct MediaRecord {
    pub path: String,
    /// The container's size read as a number; 0 when absent or unreadable.
    pub scanned_size: u64,
    /// The container's bit rate read as a number; 0 when absent or unreadable.
    pub scanned_bit_rate: u64,
    pub width: u64,
    pub height: u64,
    /// The frame count the first video stream's fields give (see
    /// [`probe_frame_count`]); `None` when the frames must be counted by decoding.
    pub probe_frames: Option<u64>,
}

/// The view of an optional string.
pub open spec fn opt_string_view(s: Option<String>) -> Option<Seq<char>> {
    match s {
        Some(t) => Some(t@),
        None => None,
    }
}

/// An optional field read as a number, or 0 when it is absent or does not read.
pub open spec fn number_or_zero(s: Option<String>) -> nat {
    match s {
        Some(t) => match parsed_unsigned(t@, u64::MAX as nat) {
            Some(v) => v,
            None => 0,
        },
        None => 0,
    }
}

/// The frame count a probed stream's fields give (see [`probe_frame_count`]).
pub open spec fn stream_frame_count(s: StreamSummary) -> Option<nat> {
    probe_frame_count(opt_string_view(s.nb_frames), opt_string_view(s.frames_tag), opt_string_view(s.frames_tag_eng))
}

/// An optional field read as a number, or 0 (see [`number_or_zero`]).
fn read_number_or_zero(s: &Option<String>) -> (res: u64)
    ensures
        res == number_or_zero(*s),
{
    match s {
        Some(t) => match parse_u64(t.as_str()) {
            Some(v) => v,
            None => 0,
        },
        None => 0,
    }
}

/// The view of an optional string as an optional slice.
fn as_slice_opt(s: &Option<String>) -> (res: Option<&str>)
    ensures
        opt_view(res) == opt_string_view(*s),
{
    match s {
        Some(t) => Some(t.as_str()),
        None => None,
    }
}

/// The record of a probed media file: the error `Failed to parse ffprobe output` when the
/// probe has no container format, or when its first video stream (if any) does not give
/// both width and height; else the path, the container's size and bit rate (0 where
/// absent or unreadable), the resolution, and the frame count the first video stream's
/// fields give.
pub fn media_file_from_probe(path: String, format: Option<FormatSummary>, streams: &[StreamSummary]) -> (res:
    Result<MediaRecord, String>)
    ensures
        match (format, first_video_index(streams@)) {
            (Some(f), Some(i)) => match (streams@[i].width, streams@[i].height) {
                (Some(w), Some(h)) => res matches Ok(r) && r.path == path && r.scanned_size
                    == number_or_zero(f.size) && r.scanned_bit_rate == number_or_zero(f.bit_rate)
                    && r.width == w && r.height == h && match stream_frame_count(streams@[i]) {
                    Some(n) => r.probe_frames == Some(n as u64),
                    None => r.probe_frames is None,
                },
                _ => res matches Err(e) && e@ == "Failed to parse ffprobe output"@,
            },
            _ => res matches Err(e) && e@ == "Failed to parse ffprobe output"@,
        },
{
    let f = match format {
        None => return Err(owned("Failed to parse ffprobe output")),
        Some(f) => f,
    };
    let (w, h) = match video_resolution(streams) {
        None => return Err(owned("Failed to parse ffprobe output")),
        Some(r) => r,
    };
    let i = match first_video_stream(streams) {
        None => {
            proof {
                lemma_no_video_index(streams@);
            }
            return Err(owned("No video stream found"));
        },
        Some(i) => i,
    };
    proof {
        crate::builders::probe_result::lemma_first_video_index(streams@, i as int);
    }
    let st = &streams[i];
    let probe_frames = frame_count_from_probe(
        as_slice_opt(&st.nb_frames),
        as_slice_opt(&st.frames_tag),
        as_slice_opt(&st.frames_tag_eng),
    );
    Ok(MediaRecord {
        path,
        scanned_size: read_number_or_zero(&f.size),
        scanned_bit_rate: read_number_or_zero(&f.bit_rate),
        width: w as u64,
        height: h as u64,
        probe_frames,
    })
}

impl MediaRecord {
    /// The number of frames: the probe's count, else the count found by decoding
    /// (`counted`), else the error `Failed to determine frame count`.
    pub fn frames(&self, counted: Option<u64>) -> (res: Result<u64, String>)
        ensures
            match (self.probe_frames, counted) {
                (Some(n), _) => res == Ok::<u64, String>(n),
                (None, Some(n)) => res == Ok::<u64, String>(n),
                (None, None) => res matches Err(e) && e@ == "Failed to determine frame count"@,
            },
    {
        match self.probe_frames {
            Some(n) => Ok(n),
            None => match counted {
                Some(n) => Ok(n),
                None => Err(owned("Failed to determine frame count")),
            },
        }
    }
}

} // verus!
