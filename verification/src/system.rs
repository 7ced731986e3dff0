//! What the library reads from the system: the clock and fresh random identifiers.
use vstd::prelude::*;

verus! {

/// The current time in whole seconds since the Unix epoch (chrono's
/// `Utc::now().timestamp()`).
///
/// Trusted: the value depends on the clock, so only that it is not negative is stated
/// (chrono panics on a clock set before the epoch rather than return).
#[verifier::external_body]
pub(crate) fn now_timestamp() -> (res: i64)
    ensures
        res >= 0,
{
    chrono::Utc::now().timestamp()
}

/// A lowercase hexadecimal digit.
pub open spec fn is_lower_hex(c: char) -> bool {
    ('0' <= c && c <= '9') || ('a' <= c && c <= 'f')
}

/// The text of a random (version 4) UUID: 36 characters, `-` at positions 8, 13, 18
/// and 23 and lowercase hexadecimal digits elsewhere, with the version `4` at position
/// 14 and the variant, one of `8`, `9`, `a`, `b`, at position 19.
pub open spec fn is_uuid_v4_text(s: Seq<char>) -> bool {
    &&& s.len() == 36
    &&& forall|i: int|
        0 <= i < 36 ==> if i == 8 || i == 13 || i == 18 || i == 23 {
            s[i] == '-'
        } else {
            is_lower_hex(#[trigger] s[i])
        }
    &&& s[14] == '4'
    &&& (s[19] == '8' || s[19] == '9' || s[19] == 'a' || s[19] == 'b')
}

/// A fresh random (version 4) UUID in its hyphenated text form (uuid's
/// `Uuid::new_v4().to_string()`, which writes the 16 bytes as lowercase hexadecimal
/// in groups of 8, 4, 4, 4 and 12 digits, after setting the version and variant bits).
///
/// Trusted: the value is random, so only its form is stated.
#[verifier::external_body]
pub(crate) fn new_uuid_v4() -> (res: String)
    ensures
        is_uuid_v4_text(res@),
{
    uuid::Uuid::new_v4().to_string()
}

} // verus!
