//! Reading decimal numbers from text, as std's `str::parse` does for the integer types,
//! and the reason it gives when a text does not read.
use vstd::prelude::*;
use crate::text::{chars_of, decimal, digit_char, owned};

verus! {

/// An ASCII decimal digit.
pub open spec fn is_digit(c: char) -> bool {
    '0' <= c && c <= '9'
}

/// The value of a decimal digit.
pub open spec fn digit_value(c: char) -> nat {
    ((c as u32) - ('0' as u32)) as nat
}

/// Every character is a decimal digit.
pub open spec fn all_digits(s: Seq<char>) -> bool {
    forall|i: int| 0 <= i < s.len() ==> is_digit(#[trigger] s[i])
}

/// The value of a string of decimal digits.
pub open spec fn digits_value(s: Seq<char>) -> nat
    decreases s.len(),
{
    if s.len() == 0 {
        0
    } else {
        digits_value(s.drop_last()) * 10 + digit_value(s.last())
    }
}

/// The digits of an unsigned number: the text without one leading `+`.
pub open spec fn unsigned_digits(s: Seq<char>) -> Seq<char> {
    if s.len() > 0 && s[0] == '+' {
        s.drop_first()
    } else {
        s
    }
}

/// The number that `s` reads as, for a type whose largest value is `max`: an optional
/// `+` followed by at least one decimal digit and nothing else, of value at most `max`
/// (std's `FromStr` for the unsigned integers); `None` for any other text.
pub open spec fn parsed_unsigned(s: Seq<char>, max: nat) -> Option<nat> {
    let d = unsigned_digits(s);
    if d.len() > 0 && all_digits(d) && digits_value(d) <= max {
        Some(digits_value(d))
    } else {
        None
    }
}

/// A longer digit string is worth at least as much as its prefix.
proof fn lemma_digits_prefix(s: Seq<char>, i: int)
    requires
        0 <= i <= s.len(),
    ensures
        digits_value(s.take(i)) <= digits_value(s),
    decreases s.len() - i,
{
    if i < s.len() {
        lemma_digits_prefix(s, i + 1);
        let t = s.take(i + 1);
        assert(t.drop_last() =~= s.take(i));
    } else {
        assert(s.take(i) =~= s);
    }
}

/// The decimal text of `n` is made of digits and is worth `n`.
proof fn lemma_decimal_digits(n: nat)
    ensures
        decimal(n).len() > 0,
        all_digits(decimal(n)),
        digits_value(decimal(n)) == n,
    decreases n,
{
    let d = (n % 10) as nat;
    assert(digit_char(d) as u32 == 48 + d);
    assert(digit_value(digit_char(d)) == d);
    if n < 10 {
        let s = decimal(n);
        assert(s.drop_last() =~= Seq::<char>::empty());
        assert(n % 10 == n);
        assert(digits_value(s) == digits_value(s.drop_last()) * 10 + digit_value(s.last()));
    } else {
        lemma_decimal_digits(n / 10);
        let s = decimal(n);
        let p = decimal(n / 10);
        assert(s == p.push(digit_char(d)));
        assert(s.drop_last() =~= p);
        assert(s.last() == digit_char(d));
        assert(digits_value(s) == digits_value(p) * 10 + d);
        assert((n / 10) * 10 + n % 10 == n);
        assert forall|i: int| 0 <= i < s.len() implies is_digit(#[trigger] s[i]) by {
            if i < p.len() {
                assert(s[i] == p[i]);
            }
        }
    }
}

/// A number written in decimal reads back as itself, for any type that can hold it.
pub proof fn decimal_reads_back(n: nat, max: nat)
    requires
        n <= max,
    ensures
        parsed_unsigned(decimal(n), max) == Some(n),
{
    lemma_decimal_digits(n);
    assert(is_digit(decimal(n)[0]));
    assert(unsigned_digits(decimal(n)) == decimal(n));
}

/// Reads an unsigned number of at most `max` from `s` (see [`parsed_unsigned`]).
pub fn parse_unsigned(s: &str, max: u64) -> (res: Option<u64>)
    ensures
        match parsed_unsigned(s@, max as nat) {
            Some(v) => res == Some(v as u64),
            None => res is None,
        },
{
    let cs = chars_of(s);
    let mut start: usize = 0;
    if cs.len() > 0 && cs[0] == '+' {
        start = 1;
    }
    let ghost d = unsigned_digits(s@);
    assert(d =~= s@.skip(start as int));
    if start >= cs.len() {
        return None;
    }
    let mut acc: u64 = 0;
    let mut i: usize = start;
    while i < cs.len()
        invariant
            cs@ == s@,
            start <= i <= cs.len(),
            d == s@.skip(start as int),
            d == unsigned_digits(s@),
            all_digits(d.take(i - start)),
            acc == digits_value(d.take(i - start)),
            acc <= max,
        decreases cs.len() - i,
    {
        let c = cs[i];
        let ghost k = i - start;
        assert(d[k] == c);
        assert(d.take(k + 1).drop_last() =~= d.take(k));
        assert(d.take(k + 1).last() == c);
        if !('0' <= c && c <= '9') {
            assert(!all_digits(d)) by {
                assert(!is_digit(d[k]));
            }
            return None;
        }
        let v: u64 = ((c as u32) - ('0' as u32)) as u64;
        assert(digit_value(c) == v);
        assert(digits_value(d.take(k + 1)) == acc * 10 + v);
        match acc.checked_mul(10) {
            None => {
                proof {
                    lemma_digits_prefix(d, k + 1);
                }
                return None;
            },
            Some(m) => {
                match m.checked_add(v) {
                    None => {
                        proof {
                            lemma_digits_prefix(d, k + 1);
                        }
                        return None;
                    },
                    Some(n) => {
                        if n > max {
                            proof {
                                lemma_digits_prefix(d, k + 1);
                            }
                            return None;
                        }
                        acc = n;
                    },
                }
            },
        }
        i = i + 1;
        assert(all_digits(d.take(i - start))) by {
            assert forall|j: int| 0 <= j < d.take(i - start).len() implies is_digit(
                #[trigger] d.take(i - start)[j],
            ) by {
                if j < k {
                    assert(d.take(i - start)[j] == d.take(k)[j]);
                }
            }
        }
    }
    assert(d.take(d.len() as int) =~= d);
    Some(acc)
}

/// Reads a `u64` from `s` (std's `str::parse::<u64>`); `None` on failure.
pub fn parse_u64(s: &str) -> (res: Option<u64>)
    ensures
        match parsed_unsigned(s@, u64::MAX as nat) {
            Some(v) => res == Some(v as u64),
            None => res is None,
        },
{
    parse_unsigned(s, u64::MAX)
}

/// Reads a `u16` from `s` (std's `str::parse::<u16>`); `None` on failure.
pub fn parse_u16(s: &str) -> (res: Option<u16>)
    ensures
        match parsed_unsigned(s@, u16::MAX as nat) {
            Some(v) => res == Some(v as u16),
            None => res is None,
        },
{
    match parse_unsigned(s, 65535) {
        Some(v) => Some(v as u16),
        None => None,
    }
}

/// The number that `s` reads as for `i64` (std's `FromStr` for `i64`): an optional
/// sign (`+` or `-`) followed by at least one decimal digit and nothing else, within the
/// range of `i64`; `None` for any other text.
pub open spec fn parsed_i64(s: Seq<char>) -> Option<int> {
    if s.len() > 0 && s[0] == '-' {
        let d = s.drop_first();
        if d.len() > 0 && all_digits(d) && digits_value(d) <= 0x8000_0000_0000_0000 {
            Some(-(digits_value(d) as int))
        } else {
            None
        }
    } else {
        match parsed_unsigned(s, i64::MAX as nat) {
            Some(v) => Some(v as int),
            None => None,
        }
    }
}

/// Reads an `i64` from `s` (std's `str::parse::<i64>`); `None` on failure.
pub fn parse_i64(s: &str) -> (res: Option<i64>)
    ensures
        match parsed_i64(s@) {
            Some(v) => res == Some(v as i64),
            None => res is None,
        },
{
    let cs = chars_of(s);
    if cs.len() > 0 && cs[0] == '-' {
        let rest = crate::text::string_of(cs.as_slice().split_at(1).1);
        assert(rest@ =~= s@.drop_first());
        if cs.len() > 1 && cs[1] == '+' {
            assert(!all_digits(rest@)) by {
                assert(!is_digit(rest@[0]));
            }
            return None;
        }
        assert(unsigned_digits(rest@) =~= rest@);
        match parse_unsigned(rest.as_str(), 0x8000_0000_0000_0000) {
            Some(v) => {
                if v == 0x8000_0000_0000_0000 {
                    Some(i64::MIN)
                } else {
                    Some(-(v as i64))
                }
            },
            None => None,
        }
    } else {
        match parse_unsigned(s, 0x7fff_ffff_ffff_ffff) {
            Some(v) => Some(v as i64),
            None => None,
        }
    }
}

/// Why a text does not read as an integer (std's `IntErrorKind`, as far as `str::parse`
/// can give it).
#[derive(Debug, Clone, Copy, PartialEq, Eq, Structural)]
pub enum IntErrorKind {
    /// The text is empty.
    Empty,
    /// A character that is not a digit, where a digit is needed.
    InvalidDigit,
    /// The number is above the type's largest value.
    PosOverflow,
    /// The number is below the type's smallest value.
    NegOverflow,
}

impl IntErrorKind {
    /// The text std writes for the error (`ParseIntError`'s `Display`).
    pub open spec fn text(self) -> Seq<char> {
        match self {
            IntErrorKind::Empty => "cannot parse integer from empty string"@,
            IntErrorKind::InvalidDigit => "invalid digit found in string"@,
            IntErrorKind::PosOverflow => "number too large to fit in target type"@,
            IntErrorKind::NegOverflow => "number too small to fit in target type"@,
        }
    }

    /// The text std writes for the error (see [`IntErrorKind::text`]).
    pub fn message(&self) -> (res: String)
        ensures
            res@ == self.text(),
    {
        match self {
            IntErrorKind::Empty => owned("cannot parse integer from empty string"),
            IntErrorKind::InvalidDigit => owned("invalid digit found in string"),
            IntErrorKind::PosOverflow => owned("number too large to fit in target type"),
            IntErrorKind::NegOverflow => owned("number too small to fit in target type"),
        }
    }
}

/// Where reading the digits `d` of a number of magnitude at most `bound` fails, read
/// from left to right as std does: at the first character that is not a digit
/// ([`IntErrorKind::InvalidDigit`]) or at the first digit that takes the value past
/// `bound` (`overflow`), whichever comes first; `None` when all of `d` reads.
pub open spec fn digits_failure(d: Seq<char>, bound: nat, overflow: IntErrorKind) -> Option<IntErrorKind>
    decreases d.len(),
{
    if d.len() == 0 {
        None
    } else {
        match digits_failure(d.drop_last(), bound, overflow) {
            Some(f) => Some(f),
            None => if !is_digit(d.last()) {
                Some(IntErrorKind::InvalidDigit)
            } else if digits_value(d) > bound {
                Some(overflow)
            } else {
                None
            },
        }
    }
}

/// Why `s` does not read as an `i64` (std's `str::parse::<i64>`): an empty text; a lone
/// sign; else the failure of the digits after an optional sign, against the magnitude
/// of `i64::MIN` after `-` and of `i64::MAX` otherwise. `None` when `s` reads.
pub open spec fn i64_failure(s: Seq<char>) -> Option<IntErrorKind> {
    if s.len() == 0 {
        Some(IntErrorKind::Empty)
    } else if s.len() == 1 && (s[0] == '+' || s[0] == '-') {
        Some(IntErrorKind::InvalidDigit)
    } else if s[0] == '-' {
        digits_failure(s.drop_first(), 0x8000_0000_0000_0000, IntErrorKind::NegOverflow)
    } else if s[0] == '+' {
        digits_failure(s.drop_first(), i64::MAX as nat, IntErrorKind::PosOverflow)
    } else {
        digits_failure(s, i64::MAX as nat, IntErrorKind::PosOverflow)
    }
}

/// The digits read exactly when they are all digits of value at most `bound`.
proof fn lemma_digits_failure(d: Seq<char>, bound: nat, overflow: IntErrorKind)
    ensures
        (digits_failure(d, bound, overflow) is None) == (all_digits(d) && digits_value(d) <= bound),
    decreases d.len(),
{
    if d.len() > 0 {
        let p = d.drop_last();
        lemma_digits_failure(p, bound, overflow);
        assert forall|i: int| 0 <= i < p.len() implies p[i] == d[i] by {}
        if all_digits(d) {
            assert forall|i: int| 0 <= i < p.len() implies is_digit(#[trigger] p[i]) by {
                assert(is_digit(d[i]));
            }
            assert(is_digit(d[d.len() - 1]));
        }
        if all_digits(p) && is_digit(d.last()) {
            assert forall|i: int| 0 <= i < d.len() implies is_digit(#[trigger] d[i]) by {
                if i < p.len() {
                    assert(is_digit(p[i]));
                }
            }
        }
    }
}

/// A text fails to read as an `i64` exactly when it does not read as one.
pub proof fn i64_failure_exactly_when_unread(s: Seq<char>)
    ensures
        (i64_failure(s) is None) == (parsed_i64(s) is Some),
{
    if s.len() > 0 {
        lemma_digits_failure(s.drop_first(), 0x8000_0000_0000_0000, IntErrorKind::NegOverflow);
        lemma_digits_failure(s.drop_first(), i64::MAX as nat, IntErrorKind::PosOverflow);
        lemma_digits_failure(s, i64::MAX as nat, IntErrorKind::PosOverflow);
        if s.len() == 1 && s[0] == '+' {
            assert(unsigned_digits(s).len() == 0);
        }
    }
}

/// Finds where the digits `d` fail to read against `bound` (see [`digits_failure`]).
fn find_digits_failure(d: &[char], bound: u64, overflow: IntErrorKind) -> (res: Option<IntErrorKind>)
    ensures
        res == digits_failure(d@, bound as nat, overflow),
{
    let mut acc: u128 = 0;
    let mut k: usize = 0;
    while k < d.len()
        invariant
            k <= d.len(),
            digits_failure(d@.take(k as int), bound as nat, overflow) is None,
            all_digits(d@.take(k as int)),
            acc == digits_value(d@.take(k as int)),
            acc <= bound,
        decreases d.len() - k,
    {
        let c = d[k];
        let t = Ghost(d@.take(k + 1));
        assert(t@.drop_last() =~= d@.take(k as int));
        assert(t@.last() == c);
        if !('0' <= c && c <= '9') {
            proof {
                lemma_failure_prefix(d@, k + 1, bound as nat, overflow);
            }
            return Some(IntErrorKind::InvalidDigit);
        }
        let v: u128 = ((c as u32) - ('0' as u32)) as u128;
        assert(digit_value(c) == v);
        let next: u128 = acc * 10 + v;
        assert(digits_value(t@) == next);
        if next > bound as u128 {
            proof {
                lemma_failure_prefix(d@, k + 1, bound as nat, overflow);
            }
            return Some(overflow);
        }
        acc = next;
        k = k + 1;
        assert(all_digits(d@.take(k as int))) by {
            assert forall|j: int| 0 <= j < k implies is_digit(#[trigger] d@.take(k as int)[j]) by {
                if j < k - 1 {
                    assert(d@.take(k as int)[j] == d@.take(k - 1)[j]);
                }
            }
        }
    }
    assert(d@.take(d.len() as int) =~= d@);
    None
}

/// Once a prefix fails, the whole text fails the same way.
proof fn lemma_failure_prefix(d: Seq<char>, k: int, bound: nat, overflow: IntErrorKind)
    requires
        0 <= k <= d.len(),
    ensures
        digits_failure(d.take(k), bound, overflow) is Some ==> digits_failure(d, bound, overflow)
            == digits_failure(d.take(k), bound, overflow),
    decreases d.len() - k,
{
    if k < d.len() {
        lemma_failure_prefix(d, k + 1, bound, overflow);
        assert(d.take(k + 1).drop_last() =~= d.take(k));
    } else {
        assert(d.take(k) =~= d);
    }
}

/// Why `s` does not read as an `i64` (see [`i64_failure`]), for a text that does not.
pub fn i64_parse_failure(s: &str) -> (res: IntErrorKind)
    requires
        parsed_i64(s@) is None,
    ensures
        i64_failure(s@) == Some(res),
{
    proof {
        i64_failure_exactly_when_unread(s@);
    }
    let cs = chars_of(s);
    if cs.len() == 0 {
        return IntErrorKind::Empty;
    }
    if cs.len() == 1 && (cs[0] == '+' || cs[0] == '-') {
        return IntErrorKind::InvalidDigit;
    }
    let found = if cs[0] == '-' {
        let rest = cs.as_slice().split_at(1).1;
        assert(rest@ =~= s@.drop_first());
        find_digits_failure(rest, 0x8000_0000_0000_0000, IntErrorKind::NegOverflow)
    } else if cs[0] == '+' {
        let rest = cs.as_slice().split_at(1).1;
        assert(rest@ =~= s@.drop_first());
        find_digits_failure(rest, 0x7fff_ffff_ffff_ffff, IntErrorKind::PosOverflow)
    } else {
        find_digits_failure(cs.as_slice(), 0x7fff_ffff_ffff_ffff, IntErrorKind::PosOverflow)
    };
    match found {
        Some(f) => f,
        None => {
            assert(false);
            IntErrorKind::Empty
        },
    }
}

/// Reads a `u64` from `s`, or 0 when `s` does not read as one.
pub fn parse_u64_or_zero(s: &str) -> (res: u64)
    ensures
        res == match parsed_unsigned(s@, u64::MAX as nat) {
            Some(v) => v,
            None => 0,
        },
{
    match parse_u64(s) {
        Some(v) => v,
        None => 0,
    }
}

} // verus!
