//! Path validation: rejecting parent-directory traversal and keeping paths inside
//! allowed base directories.
//!
//! Paths are modelled as Unix paths, by their text. A path's components are those of
//! std's `Path::components` on Unix: a leading `/` is the root, empty segments and `.`
//! segments are skipped except a `.` at the very start of a relative path, and `..` is
//! the parent directory. A component is written as its text (the root as `/`).
//!
//! Resolving a path against the file system (`canonicalize`, the current directory)
//! is done by the caller, which hands the outcome in.
use vstd::prelude::*;
use crate::text::{chars_of, concat, lemma_strs_push, owned, str_eq, string_of, strs};

verus! {

/// Why a path was refused.
#[derive(Debug, Clone, PartialEq)]
pub enum PathError {
    /// The path could not be resolved against the file system (the reason given).
    CanonicalizeFailed(String),
    /// The path holds a `..` component.
    ParentDirTraversal,
    /// The current directory could not be read (the reason given).
    CurrentDirFailed(String),
    /// The resolved path (given) lies under none of the allowed base directories.
    NotWithinAllowedBase(String),
}

/// A segment between separators that stands as a component: not empty and not `.`.
pub open spec fn kept_part(seg: Seq<char>) -> bool {
    seg.len() > 0 && seg != seq!['.']
}

/// The components of the rest `s` of a path, after a segment in progress `cur`.
pub open spec fn parts_after(s: Seq<char>, cur: Seq<char>) -> Seq<Seq<char>>
    decreases s.len(),
{
    if s.len() == 0 {
        if kept_part(cur) {
            seq![cur]
        } else {
            Seq::empty()
        }
    } else if s[0] == '/' {
        (if kept_part(cur) {
            seq![cur]
        } else {
            Seq::empty()
        }) + parts_after(s.drop_first(), Seq::empty())
    } else {
        parts_after(s.drop_first(), cur.push(s[0]))
    }
}

/// The path starts at the root.
pub open spec fn has_root(s: Seq<char>) -> bool {
    s.len() > 0 && s[0] == '/'
}

/// The path is relative and starts with a `.` segment.
pub open spec fn leading_cur_dir(s: Seq<char>) -> bool {
    !has_root(s) && s.len() > 0 && s[0] == '.' && (s.len() == 1 || s[1] == '/')
}

/// The components of a path (std's `Path::components` on Unix).
pub open spec fn components(s: Seq<char>) -> Seq<Seq<char>> {
    if has_root(s) {
        seq![seq!['/']] + parts_after(s.drop_first(), Seq::empty())
    } else if leading_cur_dir(s) {
        seq![seq!['.']] + parts_after(s.drop_first(), Seq::empty())
    } else {
        parts_after(s, Seq::empty())
    }
}

/// The path holds a parent-directory (`..`) component.
pub open spec fn has_parent_dir(s: Seq<char>) -> bool {
    components(s).contains(seq!['.', '.'])
}

/// `base`'s components begin `path`'s components (std's `Path::starts_with`).
pub open spec fn starts_with_path(path: Seq<char>, base: Seq<char>) -> bool {
    let p = components(path);
    let b = components(base);
    b.len() <= p.len() && p.take(b.len() as int) == b
}

/// `path` lies under one of the bases.
pub open spec fn within_some_base(path: Seq<char>, bases: Seq<Seq<char>>) -> bool {
    exists|i: int| 0 <= i < bases.len() && starts_with_path(path, #[trigger] bases[i])
}

/// A relative path appended to a directory (std's `Path::join` with a relative
/// argument): a separator is put between them unless the directory is empty or
/// already ends in one.
pub open spec fn join_relative(dir: Seq<char>, rel: Seq<char>) -> Seq<char> {
    if dir.len() > 0 && dir.last() != '/' {
        dir + seq!['/'] + rel
    } else {
        dir + rel
    }
}

/// The absolute form of a path that need not exist: the path itself when it starts at
/// the root, else the path joined onto the current directory.
pub open spec fn absolute_from(path: Seq<char>, cwd: Seq<char>) -> Seq<char> {
    if has_root(path) {
        path
    } else {
        join_relative(cwd, path)
    }
}

/// Whether a segment stands as a component (executable form of [`kept_part`]).
fn is_kept_part(cur: &Vec<char>) -> (res: bool)
    ensures
        res == kept_part(cur@),
{
    if cur.len() == 0 {
        false
    } else if cur.len() == 1 && cur[0] == '.' {
        assert(cur@ =~= seq!['.']);
        false
    } else {
        assert(cur@ != seq!['.']) by {
            if cur.len() == 1 {
                assert(cur@[0] != seq!['.'][0]);
            }
        }
        true
    }
}

/// The components of the rest of a path, starting at `start` with no segment in progress.
fn parts_from(cs: &Vec<char>, start: usize, out: &mut Vec<String>)
    requires
        start <= cs.len(),
    ensures
        strs(final(out)@) == strs(old(out)@) + parts_after(cs@.skip(start as int), Seq::empty()),
{
    let mut cur: Vec<char> = Vec::new();
    let mut i: usize = start;
    let ghost base = strs(out@);
    assert(base + parts_after(cs@.skip(start as int), Seq::empty()) =~= base + parts_after(
        cs@.skip(start as int),
        cur@,
    ));
    while i < cs.len()
        invariant
            start <= i <= cs.len(),
            strs(out@) + parts_after(cs@.skip(i as int), cur@) == base + parts_after(
                cs@.skip(start as int),
                Seq::empty(),
            ),
        decreases cs.len() - i,
    {
        let ghost rest = cs@.skip(i as int);
        assert(rest[0] == cs@[i as int]);
        assert(rest.drop_first() =~= cs@.skip(i + 1));
        let c = cs[i];
        if c == '/' {
            if is_kept_part(&cur) {
                let w = string_of(cur.as_slice());
                let ghost before = out@;
                out.push(w);
                proof {
                    lemma_strs_push(before, w);
                }
                assert(strs(out@) + parts_after(cs@.skip(i + 1), Seq::empty()) =~= strs(before) + (
                seq![cur@] + parts_after(cs@.skip(i + 1), Seq::empty())));
            } else {
                assert(parts_after(rest, cur@) =~= Seq::<Seq<char>>::empty() + parts_after(
                    cs@.skip(i + 1),
                    Seq::empty(),
                ));
            }
            cur = Vec::new();
        } else {
            cur.push(c);
        }
        i = i + 1;
    }
    assert(cs@.skip(i as int) =~= Seq::<char>::empty());
    if is_kept_part(&cur) {
        let w = string_of(cur.as_slice());
        let ghost before = out@;
        out.push(w);
        proof {
            lemma_strs_push(before, w);
        }
    } else {
        assert(strs(out@) + Seq::<Seq<char>>::empty() =~= strs(out@));
    }
}

/// The components of a path, each as a `String` (std's `Path::components` on Unix).
pub fn path_components(path: &str) -> (res: Vec<String>)
    ensures
        strs(res@) == components(path@),
{
    let cs = chars_of(path);
    let mut out: Vec<String> = Vec::new();
    if cs.len() > 0 && cs[0] == '/' {
        out.push(owned("/"));
        proof {
            reveal_strlit("/");
            assert("/"@ =~= seq!['/']);
            assert(strs(out@)[0] == out@[0]@);
            assert(strs(out@) =~= seq![seq!['/']]);
        }
        parts_from(&cs, 1, &mut out);
        assert(cs@.skip(1) =~= path@.drop_first());
    } else if cs.len() > 0 && cs[0] == '.' && (cs.len() == 1 || cs[1] == '/') {
        out.push(owned("."));
        proof {
            reveal_strlit(".");
            assert("."@ =~= seq!['.']);
            assert(strs(out@)[0] == out@[0]@);
            assert(strs(out@) =~= seq![seq!['.']]);
        }
        parts_from(&cs, 1, &mut out);
        assert(cs@.skip(1) =~= path@.drop_first());
    } else {
        parts_from(&cs, 0, &mut out);
        assert(cs@.skip(0) =~= path@);
        assert(strs(out@) =~= Seq::<Seq<char>>::empty() + components(path@));
    }
    out
}

/// Whether a path holds a `..` component.
pub fn contains_parent_dir(path: &str) -> (res: bool)
    ensures
        res == has_parent_dir(path@),
{
    let comps = path_components(path);
    let mut i: usize = 0;
    while i < comps.len()
        invariant
            i <= comps.len(),
            strs(comps@) == components(path@),
            forall|k: int| 0 <= k < i ==> components(path@)[k] != seq!['.', '.'],
        decreases comps.len() - i,
    {
        let e = str_eq(comps[i].as_str(), "..");
        proof {
            reveal_strlit("..");
            assert(strs(comps@)[i as int] == comps@[i as int]@);
            assert(".."@ =~= seq!['.', '.']);
        }
        if e {
            assert(components(path@).contains(seq!['.', '.'])) by {
                assert(components(path@)[i as int] == seq!['.', '.']);
            }
            return true;
        }
        i = i + 1;
    }
    assert(!components(path@).contains(seq!['.', '.'])) by {
        if components(path@).contains(seq!['.', '.']) {
            let k = choose|k: int|
                0 <= k < components(path@).len() && components(path@)[k] == seq!['.', '.'];
            assert(components(path@)[k] != seq!['.', '.']);
        }
    }
    false
}

/// Whether `path` lies under `base`, component by component (std's `Path::starts_with`).
pub fn path_starts_with(path: &str, base: &str) -> (res: bool)
    ensures
        res == starts_with_path(path@, base@),
{
    let p = path_components(path);
    let b = path_components(base);
    if b.len() > p.len() {
        return false;
    }
    let mut i: usize = 0;
    while i < b.len()
        invariant
            strs(p@) == components(path@),
            strs(b@) == components(base@),
            b.len() <= p.len(),
            i <= b.len(),
            forall|k: int| 0 <= k < i ==> components(path@)[k] == components(base@)[k],
        decreases b.len() - i,
    {
        assert(strs(p@)[i as int] == p@[i as int]@);
        assert(strs(b@)[i as int] == b@[i as int]@);
        if !str_eq(p[i].as_str(), b[i].as_str()) {
            assert(components(path@).take(b.len() as int)[i as int] != components(base@)[i as int]);
            return false;
        }
        i = i + 1;
    }
    assert(components(path@).take(b.len() as int) =~= components(base@));
    true
}

/// Whether `path` lies under one of `bases`.
fn within_any(path: &str, bases: &[String]) -> (res: bool)
    ensures
        res == within_some_base(path@, strs(bases@)),
{
    let mut i: usize = 0;
    while i < bases.len()
        invariant
            i <= bases.len(),
            forall|k: int| 0 <= k < i ==> !starts_with_path(path@, #[trigger] strs(bases@)[k]),
        decreases bases.len() - i,
    {
        assert(strs(bases@)[i as int] == bases@[i as int]@);
        if path_starts_with(path, bases[i].as_str()) {
            assert(starts_with_path(path@, strs(bases@)[i as int]));
            return true;
        }
        i = i + 1;
    }
    false
}

/// Validates that a path does not contain path traversal sequences and is a
/// canonicalized absolute path.
///
/// `canonical` is the outcome of resolving `path` against the file system (std's
/// `Path::canonicalize`). A failure there is reported first; else a path holding a
/// `..` component is refused; else the resolved path is returned.
pub fn validate_path_security(path: &str, canonical: Result<String, String>) -> (res: Result<
    String,
    PathError,
>)
    ensures
        match canonical {
            Err(e) => res matches Err(PathError::CanonicalizeFailed(m)) && m@ == e@,
            Ok(c) => if has_parent_dir(path@) {
                res matches Err(PathError::ParentDirTraversal)
            } else {
                res matches Ok(r) && r@ == c@
            },
        },
{
    match canonical {
        Err(e) => Err(PathError::CanonicalizeFailed(e)),
        Ok(c) => {
            if contains_parent_dir(path) {
                Err(PathError::ParentDirTraversal)
            } else {
                Ok(c)
            }
        },
    }
}

/// Validates that a path, resolved as in [`validate_path_security`], lies under one of
/// the allowed base directories; the resolved path is returned.
pub fn validate_path_within_base(
    path: &str,
    canonical: Result<String, String>,
    allowed_bases: &[String],
) -> (res: Result<String, PathError>)
    ensures
        match canonical {
            Err(e) => res matches Err(PathError::CanonicalizeFailed(m)) && m@ == e@,
            Ok(c) => if has_parent_dir(path@) {
                res matches Err(PathError::ParentDirTraversal)
            } else if within_some_base(c@, strs(allowed_bases@)) {
                res matches Ok(r) && r@ == c@
            } else {
                res matches Err(PathError::NotWithinAllowedBase(r)) && r@ == c@
            },
        },
{
    let resolved = validate_path_security(path, canonical);
    match resolved {
        Err(e) => Err(e),
        Ok(c) => {
            if within_any(c.as_str(), allowed_bases) {
                Ok(c)
            } else {
                Err(PathError::NotWithinAllowedBase(c))
            }
        },
    }
}

/// A separator ends the segment in progress: what follows it is split on its own.
proof fn lemma_parts_split(z: Seq<char>, y: Seq<char>, cur: Seq<char>)
    ensures
        parts_after(z + seq!['/'] + y, cur) == parts_after(z, cur) + parts_after(y, Seq::empty()),
    decreases z.len(),
{
    let s = z + seq!['/'] + y;
    if z.len() == 0 {
        assert(s =~= seq!['/'] + y);
        assert(s.drop_first() =~= y);
    } else if z[0] == '/' {
        assert(s.drop_first() =~= z.drop_first() + seq!['/'] + y);
        lemma_parts_split(z.drop_first(), y, Seq::empty());
        let f = if kept_part(cur) {
            seq![cur]
        } else {
            Seq::<Seq<char>>::empty()
        };
        assert(f + (parts_after(z.drop_first(), Seq::empty()) + parts_after(y, Seq::empty()))
            =~= f + parts_after(z.drop_first(), Seq::empty()) + parts_after(y, Seq::empty()));
    } else {
        assert(s.drop_first() =~= z.drop_first() + seq!['/'] + y);
        lemma_parts_split(z.drop_first(), y, cur.push(z[0]));
    }
}

/// The components of `x/y` are those of `x/` followed by those of `y`'s segments.
proof fn lemma_components_split(x: Seq<char>, y: Seq<char>)
    ensures
        components(x + seq!['/'] + y) == components(x + seq!['/']) + parts_after(y, Seq::empty()),
{
    let s = x + seq!['/'] + y;
    let t = x + seq!['/'];
    let e = Seq::<char>::empty();
    assert(t =~= x + seq!['/'] + e);
    lemma_parts_split(x, y, Seq::empty());
    lemma_parts_split(x, e, Seq::empty());
    assert(parts_after(e, Seq::empty()) =~= Seq::<Seq<char>>::empty());
    if x.len() == 0 {
        assert(s =~= seq!['/'] + y);
        assert(s.drop_first() =~= y);
        assert(t.drop_first() =~= e);
        assert(has_root(s) && has_root(t));
    } else {
        let w = x.drop_first();
        assert(s.drop_first() =~= w + seq!['/'] + y);
        assert(t.drop_first() =~= w + seq!['/'] + e);
        lemma_parts_split(w, y, Seq::empty());
        lemma_parts_split(w, e, Seq::empty());
        assert(s[0] == x[0] && t[0] == x[0]);
        if x.len() >= 2 {
            assert(s[1] == x[1] && t[1] == x[1]);
        } else {
            assert(s[1] == '/' && t[1] == '/');
        }
        if has_root(s) {
            assert(seq![seq!['/']] + (parts_after(w, Seq::empty()) + parts_after(y, Seq::empty()))
                =~= seq![seq!['/']] + parts_after(w, Seq::empty()) + parts_after(y, Seq::empty()));
        } else if leading_cur_dir(s) {
            assert(seq![seq!['.']] + (parts_after(w, Seq::empty()) + parts_after(y, Seq::empty()))
                =~= seq![seq!['.']] + parts_after(w, Seq::empty()) + parts_after(y, Seq::empty()));
        }
    }
}

/// A path joined onto a directory lies within that directory: the directory's
/// components begin the joined path's components. So a relative path made absolute
/// against the current directory always lies under the current directory.
pub proof fn joined_path_within_dir(dir: Seq<char>, rel: Seq<char>)
    ensures
        starts_with_path(join_relative(dir, rel), dir),
{
    let j = join_relative(dir, rel);
    if dir.len() == 0 {
        assert(parts_after(dir, Seq::empty()) =~= Seq::<Seq<char>>::empty());
        assert(components(dir) =~= Seq::<Seq<char>>::empty());
        assert(components(j).take(0) =~= components(dir));
    } else if dir.last() != '/' {
        lemma_components_split(dir, rel);
        lemma_components_split(dir, Seq::empty());
        assert(dir + seq!['/'] + Seq::<char>::empty() =~= dir + seq!['/']);
        assert(parts_after(Seq::<char>::empty(), Seq::empty()) =~= Seq::<Seq<char>>::empty());
        lemma_components_drop_sep(dir);
        let c = components(dir);
        assert(components(j).take(c.len() as int) =~= c);
    } else {
        let x = dir.drop_last();
        assert(dir =~= x + seq!['/']);
        assert(j =~= x + seq!['/'] + rel);
        lemma_components_split(x, rel);
        let c = components(dir);
        assert(components(j).take(c.len() as int) =~= c);
    }
}

/// A trailing separator adds no component to a non-empty path.
proof fn lemma_components_drop_sep(x: Seq<char>)
    requires
        x.len() > 0,
    ensures
        components(x + seq!['/']) == components(x),
{
    let t = x + seq!['/'];
    let e = Seq::<char>::empty();
    assert(parts_after(e, Seq::empty()) =~= Seq::<Seq<char>>::empty());
    assert(t =~= x + seq!['/'] + e);
    lemma_parts_split(x, e, Seq::empty());
    assert(parts_after(x, Seq::empty()) + Seq::<Seq<char>>::empty() =~= parts_after(x, Seq::empty()));
    let w = x.drop_first();
    assert(t.drop_first() =~= w + seq!['/'] + e);
    lemma_parts_split(w, e, Seq::empty());
    assert(parts_after(w, Seq::empty()) + Seq::<Seq<char>>::empty() =~= parts_after(w, Seq::empty()));
    assert(t[0] == x[0]);
    if x.len() >= 2 {
        assert(t[1] == x[1]);
    } else {
        assert(t[1] == '/');
    }
}

/// Validates a path that need not exist yet: a path holding a `..` component is
/// refused first; else its absolute form is returned: the path itself when it starts
/// at the root, else the path joined onto the current directory.
///
/// `cwd` is the outcome of reading the current directory; it is used only for a
/// relative path.
pub fn validate_path_security_non_existent(path: &str, cwd: Result<String, String>) -> (res:
    Result<String, PathError>)
    ensures
        has_parent_dir(path@) ==> res matches Err(PathError::ParentDirTraversal),
        !has_parent_dir(path@) && has_root(path@) ==> (res matches Ok(r) && r@ == path@),
        !has_parent_dir(path@) && !has_root(path@) ==> match cwd {
            Err(e) => res matches Err(PathError::CurrentDirFailed(m)) && m@ == e@,
            Ok(c) => res matches Ok(r) && r@ == join_relative(c@, path@),
        },
{
    if contains_parent_dir(path) {
        return Err(PathError::ParentDirTraversal);
    }
    let cs = chars_of(path);
    if cs.len() > 0 && cs[0] == '/' {
        return Ok(owned(path));
    }
    match cwd {
        Err(e) => Err(PathError::CurrentDirFailed(e)),
        Ok(c) => {
            let dir = chars_of(c.as_str());
            if dir.len() > 0 && dir[dir.len() - 1] != '/' {
                let with_sep = concat(c.as_str(), "/");
                proof {
                    reveal_strlit("/");
                }
                Ok(concat(with_sep.as_str(), path))
            } else {
                Ok(concat(c.as_str(), path))
            }
        },
    }
}

/// Validates that a path that need not exist yet, made absolute as in
/// [`validate_path_security_non_existent`], lies under one of the allowed base
/// directories; the absolute path is returned.
pub fn validate_path_within_base_non_existent(
    path: &str,
    cwd: Result<String, String>,
    allowed_bases: &[String],
) -> (res: Result<String, PathError>)
    ensures
        has_parent_dir(path@) ==> res matches Err(PathError::ParentDirTraversal),
        !has_parent_dir(path@) && !has_root(path@) && cwd is Err ==> (res matches Err(
            PathError::CurrentDirFailed(m),
        ) && m@ == cwd->Err_0@),
        !has_parent_dir(path@) && (has_root(path@) || cwd is Ok) ==> {
            let a = absolute_from(path@, if cwd is Ok { cwd->Ok_0@ } else { Seq::empty() });
            if within_some_base(a, strs(allowed_bases@)) {
                res matches Ok(r) && r@ == a
            } else {
                res matches Err(PathError::NotWithinAllowedBase(r)) && r@ == a
            }
        },
{
    let absolute = validate_path_security_non_existent(path, cwd);
    match absolute {
        Err(e) => Err(e),
        Ok(a) => {
            if within_any(a.as_str(), allowed_bases) {
                Ok(a)
            } else {
                Err(PathError::NotWithinAllowedBase(a))
            }
        },
    }
}

} // verus!
