//! Decoding of the raw bytes that FFprobe writes: UTF-8, or UTF-16 with or without
//! a byte order mark (FFprobe on Windows may write UTF-16).
use vstd::prelude::*;
use vstd::utf8::{decode_utf8, valid_utf8};
use vstd::slice::slice_subrange;

verus! {

/// What `encoding_rs::UTF_16LE.decode` yields for these bytes (with BOM sniffing and
/// malformed sequences replaced by U+FFFD).
pub uninterp spec fn utf16le_decoded(bytes: Seq<u8>) -> Seq<char>;

/// What `encoding_rs::UTF_16BE.decode` yields for these bytes (with BOM sniffing and
/// malformed sequences replaced by U+FFFD).
pub uninterp spec fn utf16be_decoded(bytes: Seq<u8>) -> Seq<char>;

/// Decodes UTF-16LE with `encoding_rs::UTF_16LE.decode`.
///
/// Trusted: the result is the decoder's output for these bytes, a function of the
/// bytes alone; nothing more of it is stated. The bound on the length keeps the
/// decoder's buffer size calculation from overflowing, on which it would panic.
#[verifier::external_body]
fn decode_utf16le(bytes: &[u8]) -> (res: String)
    requires
        bytes@.len() <= usize::MAX / 4,
    ensures
        res@ == utf16le_decoded(bytes@),
{
    let (decoded, _encoding, _had_errors) = encoding_rs::UTF_16LE.decode(bytes);
    decoded.into_owned()
}

/// Decodes UTF-16BE with `encoding_rs::UTF_16BE.decode`.
///
/// Trusted: the result is the decoder's output for these bytes, a function of the
/// bytes alone; nothing more of it is stated. The bound on the length keeps the
/// decoder's buffer size calculation from overflowing, on which it would panic.
#[verifier::external_body]
fn decode_utf16be(bytes: &[u8]) -> (res: String)
    requires
        bytes@.len() <= usize::MAX / 4,
    ensures
        res@ == utf16be_decoded(bytes@),
{
    let (decoded, _encoding, _had_errors) = encoding_rs::UTF_16BE.decode(bytes);
    decoded.into_owned()
}

/// Decodes UTF-8 with std's `String::from_utf8`.
///
/// Trusted: std documents that the conversion succeeds exactly when the bytes are
/// valid UTF-8, and then holds the characters they encode.
#[verifier::external_body]
fn decode_utf8_bytes(bytes: &[u8]) -> (res: Option<String>)
    ensures
        res is Some <==> valid_utf8(bytes@),
        res matches Some(s) ==> s@ == decode_utf8(bytes@),
{
    String::from_utf8(bytes.to_vec()).ok()
}

/// The text of FFprobe's raw output: UTF-16LE after a `FF FE` byte order mark,
/// UTF-16BE after `FE FF`, UTF-16LE when the output starts with `{`, 0, space, 0
/// (a JSON document without a byte order mark), otherwise UTF-8 when the bytes are
/// valid UTF-8, and UTF-16LE as a last resort.
pub open spec fn probe_output_text(raw: Seq<u8>) -> Seq<char> {
    if raw.len() >= 2 && raw[0] == 0xFF && raw[1] == 0xFE {
        utf16le_decoded(raw.subrange(2, raw.len() as int))
    } else if raw.len() >= 2 && raw[0] == 0xFE && raw[1] == 0xFF {
        utf16be_decoded(raw.subrange(2, raw.len() as int))
    } else if raw.len() >= 4 && raw[0] == 0x7B && raw[1] == 0 && raw[2] == 0x20 && raw[3] == 0 {
        utf16le_decoded(raw)
    } else if valid_utf8(raw) {
        decode_utf8(raw)
    } else {
        utf16le_decoded(raw)
    }
}

/// Decodes FFprobe's raw output (see [`probe_output_text`]).
pub fn decode_probe_output(raw: &[u8]) -> (res: String)
    requires
        raw@.len() <= usize::MAX / 4,
    ensures
        res@ == probe_output_text(raw@),
{
    let n = raw.len();
    if n >= 2 && raw[0] == 0xFF && raw[1] == 0xFE {
        decode_utf16le(slice_subrange(raw, 2, n))
    } else if n >= 2 && raw[0] == 0xFE && raw[1] == 0xFF {
        decode_utf16be(slice_subrange(raw, 2, n))
    } else if n >= 4 && raw[0] == 0x7B && raw[1] == 0 && raw[2] == 0x20 && raw[3] == 0 {
        decode_utf16le(raw)
    } else {
        match decode_utf8_bytes(raw) {
            Some(s) => s,
            None => decode_utf16le(raw),
        }
    }
}

} // verus!
