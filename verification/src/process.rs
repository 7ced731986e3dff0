//! The logic around running an FFmpeg or FFprobe process: the platform name used to
//! download binaries, the command line shown in reports, the splitting of streamed
//! output into lines, and the report of a failed run.
use vstd::prelude::*;
use vstd::string::StringSliceAdditionalSpecFns;
use vstd::utf8::is_char_boundary;
use crate::text::{
    byte_len, bytes_from, chars_of, concat, decimal, ellipsis_tail, is_blank, is_whitespace,
    is_ws, join, owned, push_char, push_str, signed_decimal, signed_decimal_string, str_eq,
    string_of,
};

verus! {

/// The platform name under which binaries are published, for an operating system, a
/// processor architecture and a pointer width (std's `env::consts::OS`, `ARCH` and
/// `usize::BITS`); `None` for a platform without binaries.
pub open spec fn platform_name(os: Seq<char>, arch: Seq<char>, pointer_width: u32) -> Option<
    Seq<char>,
> {
    if os == "windows"@ && pointer_width == 64 {
        Some("windows-64"@)
    } else if os == "windows"@ && pointer_width == 32 {
        Some("windows-32"@)
    } else if os == "linux"@ && arch == "x86_64"@ {
        Some("linux-64"@)
    } else if os == "linux"@ && arch == "x86"@ {
        Some("linux-32"@)
    } else if os == "linux"@ && arch == "arm"@ {
        Some("linux-armhf"@)
    } else if os == "linux"@ && arch == "aarch64"@ {
        Some("linux-arm-64"@)
    } else if os == "macos"@ && arch == "x86_64"@ {
        Some("osx-64"@)
    } else if os == "macos"@ && arch == "aarch64"@ {
        Some("osx-arm-64"@)
    } else {
        None
    }
}

/// Detects the platform string for the binaries' download API from the operating
/// system, architecture and pointer width it is given; an unsupported platform is an
/// error with the message `Unsupported platform`.
pub fn get_platform_string(os: &str, arch: &str, pointer_width: u32) -> (res: Result<
    String,
    String,
>)
    ensures
        match platform_name(os@, arch@, pointer_width) {
            Some(p) => res matches Ok(s) && s@ == p,
            None => res matches Err(e) && e@ == "Unsupported platform"@,
        },
{
    let windows = str_eq(os, "windows");
    let linux = str_eq(os, "linux");
    let macos = str_eq(os, "macos");
    if windows && pointer_width == 64 {
        Ok(owned("windows-64"))
    } else if windows && pointer_width == 32 {
        Ok(owned("windows-32"))
    } else if linux && str_eq(arch, "x86_64") {
        Ok(owned("linux-64"))
    } else if linux && str_eq(arch, "x86") {
        Ok(owned("linux-32"))
    } else if linux && str_eq(arch, "arm") {
        Ok(owned("linux-armhf"))
    } else if linux && str_eq(arch, "aarch64") {
        Ok(owned("linux-arm-64"))
    } else if macos && str_eq(arch, "x86_64") {
        Ok(owned("osx-64"))
    } else if macos && str_eq(arch, "aarch64") {
        Ok(owned("osx-arm-64"))
    } else {
        Err(owned("Unsupported platform"))
    }
}

/// Where the binaries come from, given what was found: the ones in the local binaries
/// directory when both are there; else the ones on the search path when both are found;
/// else none (they must be downloaded).
pub fn choose_binaries(
    local: Option<(String, String)>,
    ffmpeg_on_path: Option<String>,
    ffprobe_on_path: Option<String>,
) -> (res: Option<(String, String)>)
    ensures
        local is Some ==> res == local,
        local is None && ffmpeg_on_path is Some && ffprobe_on_path is Some ==> res == Some(
            (ffmpeg_on_path->Some_0, ffprobe_on_path->Some_0),
        ),
        local is None && (ffmpeg_on_path is None || ffprobe_on_path is None) ==> res is None,
{
    match local {
        Some(l) => Some(l),
        None => match (ffmpeg_on_path, ffprobe_on_path) {
            (Some(a), Some(b)) => Some((a, b)),
            _ => None,
        },
    }
}

/// The file names of the two binaries: with `.exe` on Windows.
pub fn binary_names(windows: bool) -> (res: (String, String))
    ensures
        windows ==> res.0@ == "ffmpeg.exe"@ && res.1@ == "ffprobe.exe"@,
        !windows ==> res.0@ == "ffmpeg"@ && res.1@ == "ffprobe"@,
{
    if windows {
        (owned("ffmpeg.exe"), owned("ffprobe.exe"))
    } else {
        (owned("ffmpeg"), owned("ffprobe"))
    }
}

/// The views of a sequence of string slices.
pub open spec fn str_views(v: Seq<&str>) -> Seq<Seq<char>> {
    v.map_values(|s: &str| s@)
}

/// The command line of a run, as reported: the binary, a space, and the arguments
/// separated by spaces.
pub open spec fn command_line_text(binary: Seq<char>, args: Seq<Seq<char>>) -> Seq<char> {
    binary + " "@ + join(args, " "@)
}

/// The command line of a run: the binary path, a space, and the arguments joined with
/// spaces.
pub fn command_line(binary: &str, args: &[&str]) -> (res: String)
    ensures
        res@ == command_line_text(binary@, str_views(args@)),
{
    let mut res = concat(binary, " ");
    let ghost head = res@;
    let mut i: usize = 0;
    while i < args.len()
        invariant
            i <= args.len(),
            res@ == head + join(str_views(args@.take(i as int)), " "@),
        decreases args.len() - i,
    {
        let ghost before = str_views(args@.take(i as int));
        if i > 0 {
            push_str(&mut res, " ");
        }
        push_str(&mut res, args[i]);
        i = i + 1;
        assert(str_views(args@.take(i as int)).drop_last() =~= before);
        assert(str_views(args@.take(i as int)).last() == args@[i - 1]@);
        if i == 1 {
            assert(before =~= Seq::<Seq<char>>::empty());
        }
        assert(res@ =~= head + join(str_views(args@.take(i as int)), " "@));
    }
    assert(args@.take(args.len() as int) =~= args@);
    res
}

/// The lines that text `s` completes, after a line in progress `cur`: each line runs up
/// to and including a newline; blank lines (white space only) are left out.
pub open spec fn lines_sent(s: Seq<char>, cur: Seq<char>) -> Seq<Seq<char>>
    decreases s.len(),
{
    if s.len() == 0 {
        Seq::empty()
    } else if s[0] == '\n' {
        (if is_blank(cur.push('\n')) {
            Seq::empty()
        } else {
            seq![cur.push('\n')]
        }) + lines_sent(s.drop_first(), Seq::empty())
    } else {
        lines_sent(s.drop_first(), cur.push(s[0]))
    }
}

/// The line left in progress after text `s`, which followed a line in progress `cur`:
/// the text after the last newline.
pub open spec fn line_left(s: Seq<char>, cur: Seq<char>) -> Seq<char>
    decreases s.len(),
{
    if s.len() == 0 {
        cur
    } else if s[0] == '\n' {
        line_left(s.drop_first(), Seq::empty())
    } else {
        line_left(s.drop_first(), cur.push(s[0]))
    }
}

/// Splits streamed process output into lines as it arrives in chunks: complete lines
/// that are not blank are handed out; the text after the last newline waits for more.
pub struct OutputLines {
    pending: String,
}

impl OutputLines {
    /// The text waiting for the rest of its line.
    pub closed spec fn pending_view(&self) -> Seq<char> {
        self.pending@
    }

    #[verifier::type_invariant]
    closed spec fn no_newline_pending(&self) -> bool {
        !self.pending@.contains('\n')
    }

    /// A splitter with nothing waiting.
    pub fn new() -> (res: Self)
        ensures
            res.pending_view() == Seq::<char>::empty(),
    {
        OutputLines { pending: String::new() }
    }

    /// Takes the next chunk of output: returns the non-blank lines that the waiting text
    /// followed by the chunk completes, each with its newline, and keeps the text after
    /// the last newline waiting.
    pub fn push(&mut self, chunk: &str) -> (res: Vec<String>)
        ensures
            crate::text::strs(res@) == lines_sent(old(self).pending_view() + chunk@, Seq::empty()),
            final(self).pending_view() == line_left(old(self).pending_view() + chunk@, Seq::empty()),
    {
        proof {
            use_type_invariant(&*self);
        }
        let ghost p = self.pending@;
        let cs = chars_of(chunk);
        let mut cur: Vec<char> = chars_of(self.pending.as_str());
        let mut out: Vec<String> = Vec::new();
        let mut i: usize = 0;
        proof {
            lemma_no_newline_prefix(p, chunk@, Seq::empty());
            assert(Seq::<char>::empty() + p =~= p);
            assert(chunk@.skip(0) =~= chunk@);
        }
        while i < cs.len()
            invariant
                cs@ == chunk@,
                i <= cs.len(),
                !cur@.contains('\n'),
                crate::text::strs(out@) + lines_sent(chunk@.skip(i as int), cur@) == lines_sent(
                    p + chunk@,
                    Seq::empty(),
                ),
                line_left(chunk@.skip(i as int), cur@) == line_left(p + chunk@, Seq::empty()),
            decreases cs.len() - i,
        {
            let ghost rest = chunk@.skip(i as int);
            assert(rest[0] == cs@[i as int]);
            assert(rest.drop_first() =~= chunk@.skip(i + 1));
            let c = cs[i];
            if c == '\n' {
                let mut line = cur.clone();
                line.push('\n');
                assert(line@ =~= cur@.push('\n'));
                if !all_blank(&line) {
                    let w = string_of(line.as_slice());
                    let ghost before = out@;
                    out.push(w);
                    proof {
                        crate::text::lemma_strs_push(before, w);
                    }
                    assert(crate::text::strs(out@) + lines_sent(chunk@.skip(i + 1), Seq::empty())
                        =~= crate::text::strs(before) + (seq![cur@.push('\n')] + lines_sent(
                        chunk@.skip(i + 1),
                        Seq::empty(),
                    )));
                } else {
                    assert(lines_sent(rest, cur@) =~= Seq::<Seq<char>>::empty() + lines_sent(
                        chunk@.skip(i + 1),
                        Seq::empty(),
                    ));
                }
                cur = Vec::new();
                assert(!cur@.contains('\n'));
            } else {
                let ghost before = cur@;
                cur.push(c);
                assert(!cur@.contains('\n')) by {
                    if cur@.contains('\n') {
                        let k = choose|k: int| 0 <= k < cur@.len() && cur@[k] == '\n';
                        if k < before.len() {
                            assert(before[k] == '\n');
                            assert(before.contains('\n'));
                        }
                    }
                }
            }
            i = i + 1;
        }
        assert(chunk@.skip(i as int) =~= Seq::<char>::empty());
        assert(crate::text::strs(out@) + Seq::<Seq<char>>::empty() =~= crate::text::strs(out@));
        self.pending = string_of(cur.as_slice());
        out
    }

    /// Ends the output: the waiting text, if there is any, is the last line.
    pub fn finish(self) -> (res: Option<String>)
        ensures
            self.pending_view().len() == 0 ==> res is None,
            self.pending_view().len() > 0 ==> (res matches Some(s) && s@ == self.pending_view()),
    {
        let cs = chars_of(self.pending.as_str());
        if cs.len() == 0 {
            None
        } else {
            Some(self.pending)
        }
    }
}

/// Whether every character of the line is white space.
fn all_blank(line: &Vec<char>) -> (res: bool)
    ensures
        res == is_blank(line@),
{
    let mut k: usize = 0;
    while k < line.len()
        invariant
            k <= line.len(),
            forall|m: int| 0 <= m < k ==> is_ws(#[trigger] line@[m]),
        decreases line.len() - k,
    {
        if !is_whitespace(line[k]) {
            return false;
        }
        k = k + 1;
    }
    true
}

/// Waiting text without a newline joins the line in progress.
proof fn lemma_no_newline_prefix(p: Seq<char>, s: Seq<char>, cur: Seq<char>)
    requires
        !p.contains('\n'),
    ensures
        lines_sent(p + s, cur) == lines_sent(s, cur + p),
        line_left(p + s, cur) == line_left(s, cur + p),
    decreases p.len(),
{
    if p.len() == 0 {
        assert(p + s =~= s);
        assert(cur + p =~= cur);
    } else {
        assert(p[0] != '\n') by {
            if p[0] == '\n' {
                assert(p.contains('\n'));
            }
        }
        assert((p + s)[0] == p[0]);
        assert((p + s).drop_first() =~= p.drop_first() + s);
        assert(!p.drop_first().contains('\n')) by {
            if p.drop_first().contains('\n') {
                let k = choose|k: int| 0 <= k < p.drop_first().len() && p.drop_first()[k] == '\n';
                assert(p[k + 1] == '\n');
            }
        }
        lemma_no_newline_prefix(p.drop_first(), s, cur.push(p[0]));
        assert(cur.push(p[0]) + p.drop_first() =~= cur + p);
    }
}

/// Output split chunk by chunk gives the same lines as the whole output split at once:
/// the lines of `a` followed by `b` are the lines of `a`, then the lines of `b` after the
/// line `a` left in progress; and what is left waiting is the same.
pub proof fn chunking_does_not_matter(a: Seq<char>, b: Seq<char>, cur: Seq<char>)
    ensures
        lines_sent(a + b, cur) == lines_sent(a, cur) + lines_sent(b, line_left(a, cur)),
        line_left(a + b, cur) == line_left(b, line_left(a, cur)),
    decreases a.len(),
{
    if a.len() == 0 {
        assert(a + b =~= b);
        assert(Seq::<Seq<char>>::empty() + lines_sent(b, cur) =~= lines_sent(b, cur));
    } else {
        assert((a + b)[0] == a[0]);
        assert((a + b).drop_first() =~= a.drop_first() + b);
        if a[0] == '\n' {
            chunking_does_not_matter(a.drop_first(), b, Seq::empty());
            let f = if is_blank(cur.push('\n')) {
                Seq::<Seq<char>>::empty()
            } else {
                seq![cur.push('\n')]
            };
            assert(f + (lines_sent(a.drop_first(), Seq::empty()) + lines_sent(
                b,
                line_left(a.drop_first(), Seq::empty()),
            )) =~= f + lines_sent(a.drop_first(), Seq::empty()) + lines_sent(
                b,
                line_left(a.drop_first(), Seq::empty()),
            ));
        } else {
            chunking_does_not_matter(a.drop_first(), b, cur.push(a[0]));
        }
    }
}

/// The exit code reported for a failed run: the process's code, or -1 when it has none
/// (it was ended by a signal).
pub open spec fn reported_code(code: Option<i32>) -> int {
    match code {
        Some(c) => c as int,
        None => -1,
    }
}

/// How captured output is shown in a report: in full when it holds at most 2000 bytes,
/// else `...` and its last 2000 bytes.
pub open spec fn output_display(s: Seq<char>) -> Seq<char> {
    if byte_len(s) <= 2000 {
        s
    } else {
        "..."@ + bytes_from(s, byte_len(s) - 2000)
    }
}

/// The error message of a run that failed: its code and command line, then the shown
/// standard error and standard output, each only when not empty.
pub open spec fn failure_message_text(
    code: Option<i32>,
    command: Seq<char>,
    stdout: Seq<char>,
    stderr: Seq<char>,
) -> Seq<char> {
    let head = "Process exited with code: "@ + signed_decimal(reported_code(code)) + "\nCommand: "@
        + command;
    let with_err = if stderr.len() > 0 {
        head + "\n\nSTDERR:\n"@ + output_display(stderr)
    } else {
        head
    };
    if stdout.len() > 0 {
        with_err + "\n\nSTDOUT:\n"@ + output_display(stdout)
    } else {
        with_err
    }
}

/// Output that may be cut at 2000 bytes from its end without splitting a character.
pub open spec fn displayable(s: &str) -> bool {
    s.spec_bytes().len() <= usize::MAX && (s.spec_bytes().len() <= 2000 || is_char_boundary(
        s.spec_bytes(),
        s.spec_bytes().len() - 2000,
    ))
}

/// The error message of a run that exited unsuccessfully, from its exit code, its
/// command line and its captured standard output and standard error (each shown in full
/// up to 2000 bytes, else as `...` and its last 2000 bytes).
pub fn failure_message(code: Option<i32>, command: &str, stdout: &str, stderr: &str) -> (res:
    String)
    requires
        displayable(stdout),
        displayable(stderr),
    ensures
        res@ == failure_message_text(code, command@, stdout@, stderr@),
{
    let c: i64 = match code {
        Some(c) => c as i64,
        None => -1,
    };
    let mut res = concat("Process exited with code: ", signed_decimal_string(c).as_str());
    push_str(&mut res, "\nCommand: ");
    push_str(&mut res, command);
    let err = chars_of(stderr);
    if err.len() > 0 {
        push_str(&mut res, "\n\nSTDERR:\n");
        let shown = ellipsis_tail(stderr, 2000);
        push_str(&mut res, shown.as_str());
    }
    let out = chars_of(stdout);
    if out.len() > 0 {
        push_str(&mut res, "\n\nSTDOUT:\n");
        let shown = ellipsis_tail(stdout, 2000);
        push_str(&mut res, shown.as_str());
    }
    assert(res@ =~= failure_message_text(code, command@, stdout@, stderr@));
    res
}

/// The platform names under which binaries are published: `windows-64` and `windows-32`
/// by pointer width; `linux-64`, `linux-32`, `linux-armhf` and `linux-arm-64` for
/// x86_64, x86, arm and aarch64 Linux; `osx-64` and `osx-arm-64` for x86_64 and aarch64
/// macOS.
pub proof fn platform_names(arch: Seq<char>, width: u32)
    ensures
        platform_name("windows"@, arch, 64) == Some("windows-64"@),
        platform_name("windows"@, arch, 32) == Some("windows-32"@),
        platform_name("linux"@, "x86_64"@, width) == Some("linux-64"@),
        platform_name("linux"@, "x86"@, width) == Some("linux-32"@),
        platform_name("linux"@, "arm"@, width) == Some("linux-armhf"@),
        platform_name("linux"@, "aarch64"@, width) == Some("linux-arm-64"@),
        platform_name("macos"@, "x86_64"@, width) == Some("osx-64"@),
        platform_name("macos"@, "aarch64"@, width) == Some("osx-arm-64"@),
{
    reveal_strlit("windows");
    reveal_strlit("linux");
    reveal_strlit("macos");
    reveal_strlit("x86_64");
    reveal_strlit("x86");
    reveal_strlit("arm");
    reveal_strlit("aarch64");
    assert("windows"@.len() == 7);
    assert("linux"@.len() == 5);
    assert("macos"@.len() == 5);
    assert("linux"@[0] != "macos"@[0]);
    assert("x86_64"@.len() == 6);
    assert("x86"@.len() == 3);
    assert("arm"@.len() == 3);
    assert("aarch64"@.len() == 7);
    assert("x86"@[0] != "arm"@[0]);
}

} // verus!
