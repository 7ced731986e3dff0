//! Character-level string operations with mathematical specifications.
//!
//! Strings are modelled by their view, a `Seq<char>`.
use vstd::prelude::*;
use vstd::string::StringSliceAdditionalSpecFns;
use vstd::utf8::{decode_utf8, encode_utf8, encode_utf8_decode_utf8, is_char_boundary};

verus! {

/// Appends one character to a `String` (std's `String::push`).
///
/// Trusted: std documents that `push` appends the given `char` to the end of the string.
#[verifier::external_body]
pub(crate) fn push_char(s: &mut String, c: char)
    ensures
        final(s)@ == old(s)@.push(c),
{
    s.push(c);
}

/// Appends a string slice (std's `String::push_str`).
///
/// Trusted: std documents that `push_str` appends the given slice to the end of the string.
#[verifier::external_body]
pub(crate) fn push_str(s: &mut String, t: &str)
    ensures
        final(s)@ == old(s)@ + t@,
{
    s.push_str(t);
}

/// What std's `str::to_lowercase` gives for a text (Unicode lower-case mapping).
pub uninterp spec fn lowercase_of(s: Seq<char>) -> Seq<char>;

/// What std's `str::to_uppercase` gives for a text (Unicode upper-case mapping).
pub uninterp spec fn uppercase_of(s: Seq<char>) -> Seq<char>;

/// The text in lower case (std's `str::to_lowercase`).
///
/// Trusted: the Unicode case mapping is not written out here; the result is named
/// [`lowercase_of`] of the argument, which std's function depends on alone.
#[verifier::external_body]
pub(crate) fn to_lowercase(s: &str) -> (res: String)
    ensures
        res@ == lowercase_of(s@),
{
    s.to_lowercase()
}

/// The text in upper case (std's `str::to_uppercase`).
///
/// Trusted: the Unicode case mapping is not written out here; the result is named
/// [`uppercase_of`] of the argument, which std's function depends on alone.
#[verifier::external_body]
pub(crate) fn to_uppercase(s: &str) -> (res: String)
    ensures
        res@ == uppercase_of(s@),
{
    s.to_uppercase()
}

/// The characters of a string slice, in order.
pub fn chars_of(s: &str) -> (res: Vec<char>)
    ensures
        res@ == s@,
{
    let mut res: Vec<char> = Vec::new();
    for c in it: s.chars()
        invariant
            res@ == it.seq().take(it.index() as int),
    {
        res.push(c);
    }
    res
}

/// Builds a `String` from a slice of characters.
pub fn string_of(cs: &[char]) -> (res: String)
    ensures
        res@ == cs@,
{
    let mut res = String::new();
    let mut i: usize = 0;
    while i < cs.len()
        invariant
            i <= cs.len(),
            res@ == cs@.take(i as int),
        decreases cs.len() - i,
    {
        push_char(&mut res, cs[i]);
        i = i + 1;
        assert(cs@.take(i as int) == cs@.take((i - 1) as int).push(cs@[i - 1]));
    }
    assert(cs@.take(cs.len() as int) == cs@);
    res
}

/// A fresh `String` holding the same characters as `s`.
pub fn owned(s: &str) -> (res: String)
    ensures
        res@ == s@,
{
    let mut res = String::new();
    push_str(&mut res, s);
    res
}

/// Concatenation of two string slices.
pub fn concat(a: &str, b: &str) -> (res: String)
    ensures
        res@ == a@ + b@,
{
    let mut res = String::new();
    push_str(&mut res, a);
    push_str(&mut res, b);
    res
}

/// Whether two string slices hold the same characters.
pub fn str_eq(a: &str, b: &str) -> (res: bool)
    ensures
        res == (a@ == b@),
{
    let x = chars_of(a);
    let y = chars_of(b);
    if x.len() != y.len() {
        return false;
    }
    let mut i: usize = 0;
    while i < x.len()
        invariant
            x@ == a@,
            y@ == b@,
            x.len() == y.len(),
            i <= x.len(),
            forall|j: int| 0 <= j < i ==> x@[j] == y@[j],
        decreases x.len() - i,
    {
        if x[i] != y[i] {
            return false;
        }
        i = i + 1;
    }
    assert(x@ =~= y@);
    true
}

/// `p` is a prefix of `s`.
pub open spec fn is_prefix(p: Seq<char>, s: Seq<char>) -> bool {
    p.len() <= s.len() && s.take(p.len() as int) == p
}

/// Whether `s` starts with `p` (std's `str::starts_with` for a `&str` pattern).
pub fn starts_with(s: &str, p: &str) -> (res: bool)
    ensures
        res == is_prefix(p@, s@),
{
    let x = chars_of(s);
    let y = chars_of(p);
    if y.len() > x.len() {
        return false;
    }
    let mut i: usize = 0;
    while i < y.len()
        invariant
            x@ == s@,
            y@ == p@,
            y.len() <= x.len(),
            i <= y.len(),
            forall|j: int| 0 <= j < i ==> x@[j] == y@[j],
        decreases y.len() - i,
    {
        if x[i] != y[i] {
            assert(s@.take(p@.len() as int)[i as int] != p@[i as int]);
            return false;
        }
        i = i + 1;
    }
    assert(s@.take(p@.len() as int) =~= p@);
    true
}

/// `p` occurs in `s` at position `i`.
pub open spec fn occurs_at(s: Seq<char>, p: Seq<char>, i: int) -> bool {
    0 <= i && i + p.len() <= s.len() && s.subrange(i, i + p.len()) == p
}

/// `p` occurs somewhere in `s` (std's `str::contains` for a `&str` pattern).
pub open spec fn contains(s: Seq<char>, p: Seq<char>) -> bool {
    exists|i: int| occurs_at(s, p, i)
}

/// Whether `p` occurs in `s` at position `i` (executable, on character vectors).
pub(crate) fn occurs_at_exec(s: &Vec<char>, p: &Vec<char>, i: usize) -> (res: bool)
    ensures
        res == occurs_at(s@, p@, i as int),
{
    if i > s.len() || p.len() > s.len() - i {
        return false;
    }
    let mut j: usize = 0;
    while j < p.len()
        invariant
            i + p.len() <= s.len(),
            j <= p.len(),
            forall|k: int| 0 <= k < j ==> s@[i + k] == p@[k],
        decreases p.len() - j,
    {
        if s[i + j] != p[j] {
            assert(s@.subrange(i as int, i + p.len())[j as int] != p@[j as int]);
            return false;
        }
        j = j + 1;
    }
    assert(s@.subrange(i as int, i + p.len()) =~= p@);
    true
}

/// Whether `p` occurs in `s`.
pub fn contains_str(s: &str, p: &str) -> (res: bool)
    ensures
        res == contains(s@, p@),
{
    let x = chars_of(s);
    let y = chars_of(p);
    let mut i: usize = 0;
    while i < x.len()
        invariant
            x@ == s@,
            y@ == p@,
            i <= x.len(),
            forall|k: int| 0 <= k < i ==> !occurs_at(s@, p@, k),
        decreases x.len() - i,
    {
        if occurs_at_exec(&x, &y, i) {
            return true;
        }
        i = i + 1;
    }
    if occurs_at_exec(&x, &y, i) {
        return true;
    }
    assert forall|k: int| !occurs_at(s@, p@, k) by {
        if 0 <= k <= x.len() {
        }
    }
    false
}

/// The decimal digit character for `d` (`0 <= d < 10`).
pub open spec fn digit_char(d: nat) -> char {
    ((48 + d) as u8) as char
}

/// The decimal representation of `n`, without sign or leading zeros.
pub open spec fn decimal(n: nat) -> Seq<char>
    decreases n,
{
    if n < 10 {
        seq![digit_char(n)]
    } else {
        decimal(n / 10).push(digit_char(n % 10))
    }
}

/// Appends the decimal representation of `n` to `out`.
pub fn push_decimal(out: &mut String, n: u64)
    ensures
        final(out)@ == old(out)@ + decimal(n as nat),
    decreases n,
{
    if n >= 10 {
        push_decimal(out, n / 10);
    }
    let d: u8 = (n % 10) as u8;
    push_char(out, (48u8 + d) as char);
    assert(final(out)@ =~= old(out)@ + decimal(n as nat)) by {
        if n >= 10 {
            assert(decimal(n as nat) == decimal((n / 10) as nat).push(digit_char((n % 10) as nat)));
        }
    }
}

/// The decimal representation of `n` (what `n.to_string()` gives for an unsigned integer).
pub fn decimal_string(n: u64) -> (res: String)
    ensures
        res@ == decimal(n as nat),
{
    let mut res = String::new();
    push_decimal(&mut res, n);
    res
}

/// The decimal representation of a signed integer: a `-` before a negative one.
pub open spec fn signed_decimal(n: int) -> Seq<char> {
    if n < 0 {
        seq!['-'] + decimal((-n) as nat)
    } else {
        decimal(n as nat)
    }
}

/// The decimal representation of `n` (what `n.to_string()` gives for a signed integer).
pub fn signed_decimal_string(n: i64) -> (res: String)
    ensures
        res@ == signed_decimal(n as int),
{
    let mut res = String::new();
    if n < 0 {
        push_char(&mut res, '-');
        let m: u64 = ((-(n + 1)) as u64) + 1;
        push_decimal(&mut res, m);
        assert(res@ =~= seq!['-'] + decimal((-n) as nat));
    } else {
        push_decimal(&mut res, n as u64);
        assert(res@ =~= decimal(n as nat));
    }
    res
}

/// The UTF-8 encoding of a text (what `str::as_bytes` gives).
pub open spec fn utf8_bytes(s: Seq<char>) -> Seq<u8> {
    encode_utf8(s)
}

/// The number of bytes of the UTF-8 encoding of `s` (std's `str::len`).
pub open spec fn byte_len(s: Seq<char>) -> nat {
    encode_utf8(s).len()
}

/// The text of the bytes of `s`'s encoding from `from` on.
pub open spec fn bytes_from(s: Seq<char>, from: int) -> Seq<char> {
    decode_utf8(encode_utf8(s).subrange(from, encode_utf8(s).len() as int))
}

/// The text of the first `n` bytes of `s`'s encoding.
pub open spec fn bytes_before(s: Seq<char>, n: int) -> Seq<char> {
    decode_utf8(encode_utf8(s).subrange(0, n))
}

/// `s` when its encoding holds at most `limit` bytes; else `...` followed by the text
/// of its last `limit` bytes (which must start a character: std panics otherwise).
pub fn ellipsis_tail(s: &str, limit: usize) -> (res: String)
    requires
        s.spec_bytes().len() <= usize::MAX,
        s.spec_bytes().len() <= limit || is_char_boundary(
            s.spec_bytes(),
            s.spec_bytes().len() - limit,
        ),
    ensures
        byte_len(s@) <= limit ==> res@ == s@,
        byte_len(s@) > limit ==> res@ == "..."@ + bytes_from(s@, byte_len(s@) - limit),
{
    let n = s.len();
    if n <= limit {
        owned(s)
    } else {
        let (_a, b) = s.split_at(n - limit);
        proof {
            encode_utf8_decode_utf8(b@);
        }
        concat("...", b)
    }
}

/// `s` when its encoding holds at most `limit` bytes; else the text of its first `keep`
/// bytes (which must end a character: std panics otherwise) followed by `...`.
pub fn ellipsis_head(s: &str, keep: usize, limit: usize) -> (res: String)
    requires
        s.spec_bytes().len() <= usize::MAX,
        keep <= limit,
        s.spec_bytes().len() <= limit || is_char_boundary(s.spec_bytes(), keep as int),
    ensures
        byte_len(s@) <= limit ==> res@ == s@,
        byte_len(s@) > limit ==> res@ == bytes_before(s@, keep as int) + "..."@,
{
    let n = s.len();
    if n <= limit {
        owned(s)
    } else {
        let (a, _b) = s.split_at(keep);
        proof {
            encode_utf8_decode_utf8(a@);
        }
        concat(a, "...")
    }
}

/// The views of a sequence of `String`s.
pub open spec fn strs(v: Seq<String>) -> Seq<Seq<char>> {
    v.map_values(|s: String| s@)
}

/// The parts joined with `sep` between consecutive parts (std's `[String]::join`).
pub open spec fn join(parts: Seq<Seq<char>>, sep: Seq<char>) -> Seq<char>
    decreases parts.len(),
{
    if parts.len() == 0 {
        Seq::empty()
    } else if parts.len() == 1 {
        parts[0]
    } else {
        join(parts.drop_last(), sep) + sep + parts.last()
    }
}

/// Joins the strings with `sep` between consecutive ones.
pub fn join_strings(parts: &[String], sep: &str) -> (res: String)
    ensures
        res@ == join(strs(parts@), sep@),
{
    let mut res = String::new();
    let mut i: usize = 0;
    while i < parts.len()
        invariant
            i <= parts.len(),
            res@ == join(strs(parts@.take(i as int)), sep@),
        decreases parts.len() - i,
    {
        let ghost before = strs(parts@.take(i as int));
        if i > 0 {
            push_str(&mut res, sep);
        }
        push_str(&mut res, parts[i].as_str());
        i = i + 1;
        assert(strs(parts@.take(i as int)).drop_last() =~= before);
        assert(strs(parts@.take(i as int)).last() == parts@[i - 1]@);
        if i == 1 {
            assert(before =~= Seq::<Seq<char>>::empty());
        }
    }
    assert(parts@.take(parts.len() as int) =~= parts@);
    res
}

/// Pushing a string pushes its view.
pub proof fn lemma_strs_push(a: Seq<String>, x: String)
    ensures
        strs(a.push(x)) == strs(a).push(x@),
{
    assert(strs(a.push(x)) =~= strs(a).push(x@));
}

/// A copy of a vector of strings.
pub fn clone_strings(v: &Vec<String>) -> (res: Vec<String>)
    ensures
        strs(res@) == strs(v@),
{
    let mut res: Vec<String> = Vec::new();
    let mut k: usize = 0;
    while k < v.len()
        invariant
            k <= v.len(),
            strs(res@) == strs(v@.take(k as int)),
        decreases v.len() - k,
    {
        let c = v[k].clone();
        let ghost before = res@;
        res.push(c);
        proof {
            lemma_strs_push(before, c);
            assert(v@.take(k + 1) =~= v@.take(k as int).push(v@[k as int]));
            lemma_strs_push(v@.take(k as int), v@[k as int]);
        }
        k = k + 1;
    }
    assert(v@.take(v.len() as int) =~= v@);
    res
}

/// Unicode `White_Space` (what `char::is_whitespace` tests).
pub open spec fn is_ws(c: char) -> bool {
    ||| ('\u{9}' <= c && c <= '\u{d}')
    ||| c == ' '
    ||| c == '\u{85}'
    ||| c == '\u{a0}'
    ||| c == '\u{1680}'
    ||| ('\u{2000}' <= c && c <= '\u{200a}')
    ||| c == '\u{2028}'
    ||| c == '\u{2029}'
    ||| c == '\u{202f}'
    ||| c == '\u{205f}'
    ||| c == '\u{3000}'
}

/// Whether `c` is Unicode white space.
pub fn is_whitespace(c: char) -> (res: bool)
    ensures
        res == is_ws(c),
{
    ('\u{9}' <= c && c <= '\u{d}') || c == ' ' || c == '\u{85}' || c == '\u{a0}' || c
        == '\u{1680}' || ('\u{2000}' <= c && c <= '\u{200a}') || c == '\u{2028}' || c
        == '\u{2029}' || c == '\u{202f}' || c == '\u{205f}' || c == '\u{3000}'
}

/// Every character of `s` is white space (so `s.trim()` is empty).
pub open spec fn is_blank(s: Seq<char>) -> bool {
    forall|i: int| 0 <= i < s.len() ==> is_ws(#[trigger] s[i])
}

/// `s` without its leading and trailing white space (std's `str::trim`).
pub open spec fn trimmed(s: Seq<char>) -> Seq<char>
    decreases s.len(),
{
    if s.len() == 0 {
        s
    } else if is_ws(s[0]) {
        trimmed(s.drop_first())
    } else if is_ws(s.last()) {
        trimmed(s.drop_last())
    } else {
        s
    }
}

/// `s` without its leading and trailing white space.
pub fn trim(s: &str) -> (res: String)
    ensures
        res@ == trimmed(s@),
{
    let cs = chars_of(s);
    let mut lo: usize = 0;
    let mut hi: usize = cs.len();
    assert(s@.subrange(0, s@.len() as int) =~= s@);
    while lo < hi && (is_whitespace(cs[lo]) || is_whitespace(cs[hi - 1]))
        invariant
            cs@ == s@,
            lo <= hi <= cs.len(),
            trimmed(s@) == trimmed(s@.subrange(lo as int, hi as int)),
        decreases hi - lo,
    {
        let ghost t = s@.subrange(lo as int, hi as int);
        if is_whitespace(cs[lo]) {
            assert(t[0] == cs@[lo as int]);
            assert(t.drop_first() =~= s@.subrange(lo + 1, hi as int));
            lo = lo + 1;
        } else {
            assert(t[0] == cs@[lo as int]);
            assert(t.last() == cs@[hi - 1]);
            assert(t.drop_last() =~= s@.subrange(lo as int, hi - 1));
            hi = hi - 1;
        }
    }
    proof {
        let t = s@.subrange(lo as int, hi as int);
        if lo < hi {
            assert(t[0] == cs@[lo as int]);
            assert(t.last() == cs@[hi - 1]);
        }
    }
    let (a, _b) = cs.as_slice().split_at(hi);
    let (_c, d) = a.split_at(lo);
    assert(d@ =~= s@.subrange(lo as int, hi as int));
    string_of(d)
}

/// A blank text trims to nothing.
pub proof fn lemma_blank_trims_empty(s: Seq<char>)
    ensures
        is_blank(s) <==> trimmed(s).len() == 0,
    decreases s.len(),
{
    if s.len() > 0 {
        if is_ws(s[0]) {
            lemma_blank_trims_empty(s.drop_first());
            if is_blank(s.drop_first()) {
                assert forall|i: int| 0 <= i < s.len() implies is_ws(#[trigger] s[i]) by {
                    if i > 0 {
                        assert(s[i] == s.drop_first()[i - 1]);
                    }
                }
            }
        } else {
            lemma_trim_keeps_first(s);
        }
    }
}

/// Text that starts with a non-white-space character trims to something non-empty.
proof fn lemma_trim_keeps_first(s: Seq<char>)
    requires
        s.len() > 0,
        !is_ws(s[0]),
    ensures
        trimmed(s).len() > 0,
    decreases s.len(),
{
    if s.len() > 1 && is_ws(s.last()) {
        assert(s.drop_last()[0] == s[0]);
        lemma_trim_keeps_first(s.drop_last());
    }
}

/// The words of `s` that follow a word in progress `cur`: maximal runs of
/// non-white-space characters.
pub open spec fn words_after(s: Seq<char>, cur: Seq<char>) -> Seq<Seq<char>>
    decreases s.len(),
{
    if s.len() == 0 {
        if cur.len() > 0 {
            seq![cur]
        } else {
            Seq::empty()
        }
    } else if is_ws(s[0]) {
        (if cur.len() > 0 {
            seq![cur]
        } else {
            Seq::empty()
        }) + words_after(s.drop_first(), Seq::empty())
    } else {
        words_after(s.drop_first(), cur.push(s[0]))
    }
}

/// The white-space separated words of `s` (std's `str::split_whitespace`).
pub open spec fn split_ws(s: Seq<char>) -> Seq<Seq<char>> {
    words_after(s, Seq::empty())
}

/// Splits `s` into its white-space separated words.
pub fn split_whitespace(s: &str) -> (res: Vec<String>)
    ensures
        strs(res@) == split_ws(s@),
{
    let cs = chars_of(s);
    let mut res: Vec<String> = Vec::new();
    let mut cur: Vec<char> = Vec::new();
    let mut i: usize = 0;
    assert(s@.skip(0) =~= s@);
    assert(strs(res@) + split_ws(s@) =~= split_ws(s@));
    while i < cs.len()
        invariant
            cs@ == s@,
            i <= cs.len(),
            strs(res@) + words_after(s@.skip(i as int), cur@) == split_ws(s@),
        decreases cs.len() - i,
    {
        let ghost rest = s@.skip(i as int);
        assert(rest[0] == cs@[i as int]);
        assert(rest.drop_first() =~= s@.skip(i + 1));
        let c = cs[i];
        if is_whitespace(c) {
            if cur.len() > 0 {
                let w = string_of(cur.as_slice());
                let ghost before = res@;
                res.push(w);
                proof {
                    lemma_strs_push(before, w);
                }
                assert(strs(res@) + words_after(s@.skip(i + 1), Seq::empty()) =~= strs(before)
                    + (seq![cur@] + words_after(s@.skip(i + 1), Seq::empty())));
            } else {
                assert(words_after(rest, cur@) =~= Seq::<Seq<char>>::empty() + words_after(
                    s@.skip(i + 1),
                    Seq::empty(),
                ));
            }
            cur = Vec::new();
        } else {
            cur.push(c);
        }
        i = i + 1;
    }
    assert(s@.skip(i as int) =~= Seq::<char>::empty());
    if cur.len() > 0 {
        let w = string_of(cur.as_slice());
        let ghost before = res@;
        res.push(w);
        proof {
            lemma_strs_push(before, w);
        }
    } else {
        assert(strs(res@) + Seq::<Seq<char>>::empty() =~= strs(res@));
    }
    res
}

/// `s` with every non-overlapping occurrence of `pat`, found left to right, replaced
/// by `rep` (std's `str::replace`); an empty `pat` matches before every character
/// and at the end.
pub open spec fn replace_all(s: Seq<char>, pat: Seq<char>, rep: Seq<char>) -> Seq<char>
    decreases s.len(),
{
    if pat.len() == 0 {
        if s.len() == 0 {
            rep
        } else {
            rep + seq![s[0]] + replace_all(s.drop_first(), pat, rep)
        }
    } else if s.len() == 0 {
        Seq::empty()
    } else if is_prefix(pat, s) {
        rep + replace_all(s.skip(pat.len() as int), pat, rep)
    } else {
        seq![s[0]] + replace_all(s.drop_first(), pat, rep)
    }
}

/// The last piece of `s` split at `pat` (std's `str::split(pat).last()`), for a
/// non-empty `pat`: the text after the last occurrence found left to right, following
/// the piece in progress `cur`.
pub open spec fn piece_after(s: Seq<char>, pat: Seq<char>, cur: Seq<char>) -> Seq<char>
    decreases s.len(),
{
    if s.len() == 0 {
        cur
    } else if pat.len() > 0 && is_prefix(pat, s) {
        piece_after(s.skip(pat.len() as int), pat, Seq::empty())
    } else {
        piece_after(s.drop_first(), pat, cur.push(s[0]))
    }
}

/// The last piece of `s` split at the non-empty `pat` (see [`piece_after`]).
pub fn last_piece(s: &str, pat: &str) -> (res: String)
    requires
        pat@.len() > 0,
    ensures
        res@ == piece_after(s@, pat@, Seq::empty()),
{
    let cs = chars_of(s);
    let ps = chars_of(pat);
    let mut cur: Vec<char> = Vec::new();
    let mut i: usize = 0;
    assert(s@.skip(0) =~= s@);
    while i < cs.len()
        invariant
            cs@ == s@,
            ps@ == pat@,
            pat@.len() > 0,
            i <= cs.len(),
            piece_after(s@.skip(i as int), pat@, cur@) == piece_after(s@, pat@, Seq::empty()),
        decreases cs.len() - i,
    {
        let ghost rest = s@.skip(i as int);
        assert(rest[0] == cs@[i as int]);
        assert(rest.drop_first() =~= s@.skip(i + 1));
        if occurs_at_exec(&cs, &ps, i) {
            proof {
                lemma_occurs_prefix(s@, pat@, i as int);
                assert(rest.skip(pat@.len() as int) =~= s@.skip(i + pat@.len()));
            }
            cur = Vec::new();
            i = i + ps.len();
        } else {
            proof {
                lemma_occurs_prefix(s@, pat@, i as int);
            }
            cur.push(cs[i]);
            i = i + 1;
        }
    }
    assert(s@.skip(i as int) =~= Seq::<char>::empty());
    string_of(cur.as_slice())
}

/// `pat` occurs at `i` in `s` exactly when it is a prefix of `s` from `i` on.
proof fn lemma_occurs_prefix(s: Seq<char>, pat: Seq<char>, i: int)
    requires
        0 <= i <= s.len(),
    ensures
        occurs_at(s, pat, i) == is_prefix(pat, s.skip(i)),
{
    if i + pat.len() <= s.len() {
        assert(s.skip(i).take(pat.len() as int) =~= s.subrange(i, i + pat.len()));
    }
}

/// Replaces every occurrence of `pat` in `s` with `rep` (see [`replace_all`]).
pub fn replace_str(s: &str, pat: &str, rep: &str) -> (res: String)
    ensures
        res@ == replace_all(s@, pat@, rep@),
{
    let cs = chars_of(s);
    let ps = chars_of(pat);
    let mut res = String::new();
    let mut i: usize = 0;
    assert(s@.skip(0) =~= s@);
    assert(res@ + replace_all(s@, pat@, rep@) =~= replace_all(s@, pat@, rep@));
    while i < cs.len()
        invariant
            cs@ == s@,
            ps@ == pat@,
            i <= cs.len(),
            res@ + replace_all(s@.skip(i as int), pat@, rep@) == replace_all(s@, pat@, rep@),
        decreases cs.len() - i,
    {
        let ghost rest = s@.skip(i as int);
        assert(rest[0] == cs@[i as int]);
        assert(rest.drop_first() =~= s@.skip(i + 1));
        let ghost before = res@;
        if ps.len() == 0 {
            push_str(&mut res, rep);
            push_char(&mut res, cs[i]);
            i = i + 1;
            assert(res@ + replace_all(s@.skip(i as int), pat@, rep@) =~= before + (rep@ + seq![
                rest[0],
            ] + replace_all(rest.drop_first(), pat@, rep@)));
        } else if occurs_at_exec(&cs, &ps, i) {
            proof {
                lemma_occurs_prefix(s@, pat@, i as int);
                assert(rest.skip(pat@.len() as int) =~= s@.skip(i + pat@.len()));
            }
            push_str(&mut res, rep);
            i = i + ps.len();
            assert(res@ + replace_all(s@.skip(i as int), pat@, rep@) =~= before + (rep@
                + replace_all(rest.skip(pat@.len() as int), pat@, rep@)));
        } else {
            proof {
                lemma_occurs_prefix(s@, pat@, i as int);
            }
            push_char(&mut res, cs[i]);
            i = i + 1;
            assert(res@ + replace_all(s@.skip(i as int), pat@, rep@) =~= before + (seq![rest[0]]
                + replace_all(rest.drop_first(), pat@, rep@)));
        }
    }
    assert(s@.skip(i as int) =~= Seq::<char>::empty());
    if ps.len() == 0 {
        push_str(&mut res, rep);
    } else {
        assert(res@ + Seq::<char>::empty() =~= res@);
    }
    res
}

/// Replacing a pattern that does not occur leaves the text unchanged.
pub proof fn lemma_replace_absent(s: Seq<char>, pat: Seq<char>, rep: Seq<char>)
    requires
        pat.len() > 0,
        !contains(s, pat),
    ensures
        replace_all(s, pat, rep) == s,
    decreases s.len(),
{
    if s.len() > 0 {
        assert(!is_prefix(pat, s)) by {
            if is_prefix(pat, s) {
                assert(s.subrange(0, pat.len() as int) =~= s.take(pat.len() as int));
                assert(occurs_at(s, pat, 0));
            }
        }
        assert(!contains(s.drop_first(), pat)) by {
            if contains(s.drop_first(), pat) {
                let k = choose|k: int| occurs_at(s.drop_first(), pat, k);
                assert(s.drop_first().subrange(k, k + pat.len()) =~= s.subrange(
                    k + 1,
                    k + 1 + pat.len(),
                ));
                assert(occurs_at(s, pat, k + 1));
            }
        }
        lemma_replace_absent(s.drop_first(), pat, rep);
        assert(seq![s[0]] + s.drop_first() =~= s);
    }
}

} // verus!
