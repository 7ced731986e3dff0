//! Frame images as data URLs, with their bytes in standard base64 (RFC 4648, with `=`
//! padding), as sent to the user interface.
use vstd::prelude::*;
use crate::text::owned;

verus! {

/// The base64 digit for a six-bit value: `A`-`Z`, `a`-`z`, `0`-`9`, `+`, `/`.
pub open spec fn b64_digit(v: nat) -> char {
    if v < 26 {
        ((65 + v) as u8) as char
    } else if v < 52 {
        ((71 + v) as u8) as char
    } else if v < 62 {
        ((v - 4) as u8) as char
    } else if v == 62 {
        '+'
    } else {
        '/'
    }
}

/// The base64 text of a byte string: each group of three bytes becomes four digits;
/// a last group of one or two bytes is padded with `=`.
pub open spec fn base64_text(bytes: Seq<u8>) -> Seq<char>
    decreases bytes.len(),
{
    if bytes.len() == 0 {
        Seq::empty()
    } else if bytes.len() == 1 {
        let b0 = bytes[0] as nat;
        seq![b64_digit(b0 / 4), b64_digit((b0 % 4) * 16), '=', '=']
    } else if bytes.len() == 2 {
        let b0 = bytes[0] as nat;
        let b1 = bytes[1] as nat;
        seq![b64_digit(b0 / 4), b64_digit((b0 % 4) * 16 + b1 / 16), b64_digit((b1 % 16) * 4), '=']
    } else {
        let b0 = bytes[0] as nat;
        let b1 = bytes[1] as nat;
        let b2 = bytes[2] as nat;
        seq![
            b64_digit(b0 / 4),
            b64_digit((b0 % 4) * 16 + b1 / 16),
            b64_digit((b1 % 16) * 4 + b2 / 64),
            b64_digit(b2 % 64),
        ] + base64_text(bytes.skip(3))
    }
}

/// Encodes bytes with `base64::engine::general_purpose::STANDARD`, the RFC 4648
/// alphabet with `=` padding, as [`base64_text`] spells it out. The crate panics when the
/// length of the encoded text overflows, which the bound on the input rules out.
#[verifier::external_body]
fn base64_encode(bytes: &[u8]) -> (res: String)
    requires
        bytes@.len() <= isize::MAX / 2,
    ensures
        res@ == base64_text(bytes@),
{
    ::base64::Engine::encode(&::base64::engine::general_purpose::STANDARD, bytes)
}

/// A JPEG image as a data URL: `data:image/jpeg;base64,` and the image in base64.
pub fn jpeg_data_url(jpeg: &[u8]) -> (res: String)
    requires
        jpeg@.len() <= isize::MAX / 2,
    ensures
        res@ == "data:image/jpeg;base64,"@ + base64_text(jpeg@),
{
    let mut res = owned("data:image/jpeg;base64,");
    let b = base64_encode(jpeg);
    crate::text::push_str(&mut res, b.as_str());
    res
}

} // verus!
