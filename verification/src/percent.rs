//! Percent-encoded text

use vstd::prelude::*;
use vstd::utf8::decode_utf8;
use vstd::utf8::valid_utf8;

use percent_encoding::percent_decode_str;

verus! {

/// The value of a hexadecimal digit, of either case
pub open spec fn hex_value(byte: u8) -> Option<int> {
    if 0x30 <= byte <= 0x39 {
        Some(byte - 0x30)
    } else if 0x41 <= byte <= 0x46 {
        Some(byte - 0x41 + 10)
    } else if 0x61 <= byte <= 0x66 {
        Some(byte - 0x61 + 10)
    } else {
        None
    }
}

/// Whether `bytes` starts with a percent sign and two hexadecimal digits
pub open spec fn starts_encoded(bytes: Seq<u8>) -> bool {
    &&& bytes.len() >= 3
    &&& bytes[0] == 0x25
    &&& hex_value(bytes[1]) is Some
    &&& hex_value(bytes[2]) is Some
}

/// The bytes with every percent sign that two hexadecimal digits follow
/// replaced, together with the digits, by the byte that the digits give; all
/// other bytes stay, a percent sign that stands alone too
pub open spec fn percent_decoded(bytes: Seq<u8>) -> Seq<u8>
    decreases bytes.len(),
{
    if bytes.len() == 0 {
        bytes
    } else if starts_encoded(bytes) {
        seq![(hex_value(bytes[1])->0 * 16 + hex_value(bytes[2])->0) as u8] + percent_decoded(
            bytes.skip(3),
        )
    } else {
        seq![bytes[0]] + percent_decoded(bytes.drop_first())
    }
}

/// The text that percent-decoding gives, where the decoded bytes are UTF-8
pub open spec fn decoded_text(text: Seq<char>) -> Option<Seq<char>> {
    let bytes = percent_decoded(vstd::utf8::encode_utf8(text));
    if valid_utf8(bytes) {
        Some(decode_utf8(bytes))
    } else {
        None
    }
}

/// Percent-decode a text and read the result as UTF-8.
///
/// Calls `percent_decode_str` of `percent_encoding` and `decode_utf8` on what
/// it gives. Trusted: every `%` followed by two hexadecimal digits becomes
/// the byte they give, every other byte stays, and the text comes back
/// exactly when the bytes so made are well-formed UTF-8.
#[verifier::external_body]
pub(crate) fn percent_decode_utf8(input: &str) -> (decoded: Option<String>)
    ensures
        match decoded {
            Some(text) => decoded_text(input@) == Some(text@),
            None => decoded_text(input@) is None,
        },
{
    percent_decode_str(input).decode_utf8().ok().map(|text| text.into_owned())
}

} // verus!
