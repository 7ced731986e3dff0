//! Where an encoded file is stored: next to its media file, under the same name with the
//! output container as its extension.
//!
//! Paths are Unix paths, taken apart as std's `Path::parent`, `Path::file_name`,
//! `Path::file_stem` and `Path::join` do.
use vstd::prelude::*;
use crate::server::path_security::{join_relative, joined_path_within_dir, starts_with_path};
use crate::text::{chars_of, concat, push_char, push_str, str_eq, string_of};
use crate::server::actor::{HttpError, BAD_REQUEST, INTERNAL_SERVER_ERROR, NOT_FOUND};

verus! {

/// A path without the separators and `.` segments at its end (a leading `/` and a lone
/// `.` stay).
pub open spec fn trim_tail(s: Seq<char>) -> Seq<char>
    decreases s.len(),
{
    if s.len() > 1 && s.last() == '/' {
        trim_tail(s.drop_last())
    } else if s.len() >= 2 && s.last() == '.' && s[s.len() - 2] == '/' {
        trim_tail(s.drop_last())
    } else {
        s
    }
}

/// The position just after the last `/` of `s` (0 when there is none).
pub open spec fn after_last_slash(s: Seq<char>) -> int
    decreases s.len(),
{
    if s.len() == 0 {
        0
    } else if s.last() == '/' {
        s.len() as int
    } else {
        after_last_slash(s.drop_last())
    }
}

/// The file name of a path (std's `Path::file_name`): its last component, when that is
/// a name (not the root, `.` or `..`).
pub open spec fn file_name_of_path(p: Seq<char>) -> Option<Seq<char>> {
    let t = trim_tail(p);
    let name = t.skip(after_last_slash(t));
    if name.len() == 0 || name == seq!['.'] || name == seq!['.', '.'] {
        None
    } else {
        Some(name)
    }
}

/// The parent of a path whose file name is known (std's `Path::parent`): the text
/// before its last component, without separators and `.` segments at its end.
pub open spec fn parent_of_path(p: Seq<char>) -> Seq<char> {
    let t = trim_tail(p);
    let before = t.take(after_last_slash(t));
    if before.len() == 0 {
        before
    } else {
        trim_tail(before)
    }
}

/// The position of the last `.` of `s`, if any.
pub open spec fn last_dot(s: Seq<char>) -> Option<int>
    decreases s.len(),
{
    if s.len() == 0 {
        None
    } else if s.last() == '.' {
        Some(s.len() - 1)
    } else {
        last_dot(s.drop_last())
    }
}

/// A last `.` lies within the text.
proof fn lemma_last_dot_bound(s: Seq<char>)
    ensures
        last_dot(s) matches Some(i) ==> 0 <= i < s.len() && s[i] == '.',
    decreases s.len(),
{
    if s.len() > 0 && s.last() != '.' {
        lemma_last_dot_bound(s.drop_last());
        if let Some(i) = last_dot(s.drop_last()) {
            assert(s.drop_last()[i] == s[i]);
        }
    }
}

/// The stem of a file name (std's `Path::file_stem`): the name without its last
/// extension; a name with no `.`, or with its only `.` at the start, is its own stem.
pub open spec fn stem_of(name: Seq<char>) -> Seq<char> {
    match last_dot(name) {
        Some(i) => if i == 0 {
            name
        } else {
            name.take(i)
        },
        None => name,
    }
}

/// The path an encoded file is stored at: next to the media file (its parent joined
/// with) its stem, a `.` and the container; `None` when the path has no file name.
pub open spec fn output_path_text(media_path: Seq<char>, container: Seq<char>) -> Option<Seq<char>> {
    match file_name_of_path(media_path) {
        Some(name) => Some(
            join_relative(parent_of_path(media_path), stem_of(name) + seq!['.'] + container),
        ),
        None => None,
    }
}

/// An encoded file is stored in the directory of its media file: the media file's
/// parent begins the output path, component by component.
pub proof fn encoded_file_stays_in_directory(media_path: Seq<char>, container: Seq<char>)
    requires
        output_path_text(media_path, container) is Some,
    ensures
        starts_with_path(output_path_text(media_path, container)->Some_0, parent_of_path(media_path)),
{
    let name = file_name_of_path(media_path)->Some_0;
    joined_path_within_dir(parent_of_path(media_path), stem_of(name) + seq!['.'] + container);
}

/// The extension of a path (std's `Path::extension`): the text after the last `.` of
/// its file name, unless that `.` starts the name; `None` when there is no such `.` or
/// no file name.
pub open spec fn extension_of(p: Seq<char>) -> Option<Seq<char>> {
    match file_name_of_path(p) {
        Some(name) => match last_dot(name) {
            Some(i) => if i == 0 {
                None
            } else {
                Some(name.skip(i + 1))
            },
            None => None,
        },
        None => None,
    }
}

/// The extension of a path (see [`extension_of`]).
pub fn path_extension(path: &str) -> (res: Option<String>)
    ensures
        match extension_of(path@) {
            Some(e) => res matches Some(r) && r@ == e,
            None => res is None,
        },
{
    let name = match split_file_name(path) {
        Some((_, n)) => n,
        None => {
            return None;
        },
    };
    let nc = chars_of(name.as_str());
    proof {
        lemma_last_dot_bound(name@);
    }
    assert(nc@.subrange(0, nc.len() as int) =~= name@);
    match dot_in(&nc, 0, nc.len()) {
        Some(i) => {
            if i == 0 {
                None
            } else {
                let e = string_of(nc.as_slice().split_at(i + 1).1);
                assert(e@ =~= name@.skip(i + 1));
                Some(e)
            }
        },
        None => None,
    }
}

/// The length of `trim_tail(s.take(n))`.
fn trimmed_len(cs: &Vec<char>, n: usize) -> (res: usize)
    requires
        n <= cs.len(),
    ensures
        res <= n,
        cs@.take(res as int) == trim_tail(cs@.take(n as int)),
{
    let mut k: usize = n;
    while (k > 1 && cs[k - 1] == '/') || (k >= 2 && cs[k - 1] == '.' && cs[k - 2] == '/')
        invariant
            k <= n <= cs.len(),
            trim_tail(cs@.take(k as int)) == trim_tail(cs@.take(n as int)),
        decreases k,
    {
        let ghost t = cs@.take(k as int);
        assert(t.drop_last() =~= cs@.take(k - 1));
        assert(t.last() == cs@[k - 1]);
        if k >= 2 {
            assert(t[t.len() - 2] == cs@[k - 2]);
        }
        k = k - 1;
    }
    proof {
        let t = cs@.take(k as int);
        if k > 0 {
            assert(t.last() == cs@[k - 1]);
        }
        if k >= 2 {
            assert(t[t.len() - 2] == cs@[k - 2]);
        }
    }
    k
}

/// The position just after the last `/` among the first `n` characters.
fn slash_end(cs: &Vec<char>, n: usize) -> (res: usize)
    requires
        n <= cs.len(),
    ensures
        res <= n,
        res == after_last_slash(cs@.take(n as int)),
{
    let mut k: usize = n;
    while k > 0 && cs[k - 1] != '/'
        invariant
            k <= n <= cs.len(),
            after_last_slash(cs@.take(k as int)) == after_last_slash(cs@.take(n as int)),
        decreases k,
    {
        let ghost t = cs@.take(k as int);
        assert(t.drop_last() =~= cs@.take(k - 1));
        assert(t.last() == cs@[k - 1]);
        k = k - 1;
    }
    proof {
        if k > 0 {
            assert(cs@.take(k as int).last() == cs@[k - 1]);
        }
    }
    k
}

/// The position of the last `.` among the characters from `from` to `to`, as an offset
/// from `from`.
fn dot_in(cs: &Vec<char>, from: usize, to: usize) -> (res: Option<usize>)
    requires
        from <= to <= cs.len(),
    ensures
        match last_dot(cs@.subrange(from as int, to as int)) {
            Some(i) => res == Some(i as usize),
            None => res is None,
        },
{
    let mut k: usize = to;
    while k > from && cs[k - 1] != '.'
        invariant
            from <= k <= to <= cs.len(),
            last_dot(cs@.subrange(from as int, k as int)) == last_dot(cs@.subrange(from as int, to as int)),
        decreases k,
    {
        let ghost t = cs@.subrange(from as int, k as int);
        assert(t.drop_last() =~= cs@.subrange(from as int, k - 1));
        assert(t.last() == cs@[k - 1]);
        k = k - 1;
    }
    if k > from {
        assert(cs@.subrange(from as int, k as int).last() == cs@[k - 1]);
        Some(k - 1 - from)
    } else {
        assert(cs@.subrange(from as int, k as int).len() == 0);
        None
    }
}

/// The parent and the file name of a path (see [`parent_of_path`] and
/// [`file_name_of_path`]); `None` when the path has no file name.
fn split_file_name(path: &str) -> (res: Option<(String, String)>)
    ensures
        match file_name_of_path(path@) {
            Some(n) => res matches Some((parent, name)) && name@ == n && parent@ == parent_of_path(path@),
            None => res is None,
        },
{
    let cs = chars_of(path);
    let ghost p = path@;
    assert(cs@.take(cs.len() as int) =~= p);
    let t_len = trimmed_len(&cs, cs.len());
    let ghost t = trim_tail(p);
    let start = slash_end(&cs, t_len);
    assert(cs@.take(start as int) =~= t.take(start as int));
    let name = string_of(cs.as_slice().split_at(t_len).0.split_at(start).1);
    assert(name@ =~= t.skip(start as int));
    let nc = chars_of(name.as_str());
    if nc.len() == 0 || (nc.len() == 1 && nc[0] == '.') || (nc.len() == 2 && nc[0] == '.' && nc[1] == '.') {
        proof {
            if nc.len() == 1 {
                assert(name@ =~= seq!['.']);
            }
            if nc.len() == 2 {
                assert(name@ =~= seq!['.', '.']);
            }
        }
        return None;
    }
    assert(name@ != seq!['.']) by {
        if nc.len() == 1 {
            assert(name@[0] != seq!['.'][0]);
        }
    }
    assert(name@ != seq!['.', '.']) by {
        if nc.len() == 2 {
            assert(name@[0] != seq!['.', '.'][0] || name@[1] != seq!['.', '.'][1]);
        }
    }
    let parent_len: usize = if start == 0 { 0 } else { trimmed_len(&cs, start) };
    let parent = string_of(cs.as_slice().split_at(parent_len).0);
    proof {
        let before = t.take(start as int);
        if start > 0 {
            assert(cs@.take(start as int) =~= before);
        }
        assert(parent@ =~= cs@.take(parent_len as int));
    }
    Some((parent, name))
}

/// The stem of a file name (see [`stem_of`]).
fn stem(name: String) -> (res: String)
    ensures
        res@ == stem_of(name@),
{
    let nc = chars_of(name.as_str());
    proof {
        lemma_last_dot_bound(name@);
    }
    assert(nc@.subrange(0, nc.len() as int) =~= name@);
    match dot_in(&nc, 0, nc.len()) {
        Some(i) => {
            if i == 0 {
                name
            } else {
                let s = string_of(nc.as_slice().split_at(i).0);
                assert(s@ =~= name@.take(i as int));
                s
            }
        },
        None => name,
    }
}

/// The file name of a path (std's `Path::file_name`), if it has one.
pub fn path_file_name(path: &str) -> (res: Option<String>)
    ensures
        match file_name_of_path(path@) {
            Some(n) => res matches Some(s) && s@ == n,
            None => res is None,
        },
{
    match split_file_name(path) {
        Some((_, n)) => Some(n),
        None => None,
    }
}

/// The stem of a path's file name (std's `Path::file_stem`), if it has a file name.
pub fn path_file_stem(path: &str) -> (res: Option<String>)
    ensures
        match file_name_of_path(path@) {
            Some(n) => res matches Some(s) && s@ == stem_of(n),
            None => res is None,
        },
{
    match split_file_name(path) {
        Some((_, n)) => Some(stem(n)),
        None => None,
    }
}

/// The path the encoded file for `media_file_path` is stored at (see
/// [`output_path_text`]): the error `Invalid filename` when the path has no file name.
pub fn output_path_for(media_file_path: &str, output_container: &str) -> (res: Result<String, String>)
    ensures
        match output_path_text(media_file_path@, output_container@) {
            Some(p) => res matches Ok(r) && r@ == p,
            None => res matches Err(e) && e@ == "Invalid filename"@,
        },
{
    let (parent, name) = match split_file_name(media_file_path) {
        Some(pn) => pn,
        None => {
            return Err(crate::text::owned("Invalid filename"));
        },
    };
    let mut file = stem(name);
    push_char(&mut file, '.');
    push_str(&mut file, output_container);
    let pc = chars_of(parent.as_str());
    if pc.len() > 0 && pc[pc.len() - 1] != '/' {
        let mut out = parent;
        push_char(&mut out, '/');
        push_str(&mut out, file.as_str());
        assert(out@ =~= parent@ + seq!['/'] + file@);
        Ok(out)
    } else {
        Ok(concat(parent.as_str(), file.as_str()))
    }
}

/// Where an uploaded output goes, before the path is checked against traversal and the
/// file is written: a job that does not exist (`status` is `None`) is answered 404
/// `Job not found`; a job that is not `in_progress`, 400 `Job is not in progress
/// (status: ` and its status `)`; a media path without a file name, 500 `Invalid
/// filename`; else the encoded file's path (see [`output_path_text`]).
pub fn upload_target(status: Option<&str>, media_file_path: &str, output_container: &str) -> (res: Result<
    String,
    HttpError,
>)
    ensures
        match status {
            None => res matches Err(e) && e.status == NOT_FOUND && e.message@ == "Job not found"@,
            Some(s) => if s@ != "in_progress"@ {
                res matches Err(e) && e.status == BAD_REQUEST && e.message@
                    == "Job is not in progress (status: "@ + s@ + ")"@
            } else {
                match output_path_text(media_file_path@, output_container@) {
                    Some(p) => res matches Ok(r) && r@ == p,
                    None => res matches Err(e) && e.status == INTERNAL_SERVER_ERROR && e.message@
                        == "Invalid filename"@,
                }
            },
        },
{
    match status {
        None => Err(HttpError { status: NOT_FOUND, message: crate::text::owned("Job not found") }),
        Some(s) => {
            if !str_eq(s, "in_progress") {
                let mut m = concat("Job is not in progress (status: ", s);
                push_str(&mut m, ")");
                return Err(HttpError { status: BAD_REQUEST, message: m });
            }
            match output_path_for(media_file_path, output_container) {
                Ok(p) => Ok(p),
                Err(e) => Err(HttpError { status: INTERNAL_SERVER_ERROR, message: e }),
            }
        },
    }
}

} // verus!
