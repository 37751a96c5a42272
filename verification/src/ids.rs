//! Identifiers: 128-bit values, written as hyphenated hexadecimal text

use vstd::prelude::*;

verus! {

/// The lower-case hexadecimal digit for a value below sixteen
pub open spec fn hex_digit(value: int) -> char {
    if value < 10 {
        (('0' as u8) + value) as u8 as char
    } else {
        (('a' as u8) + value - 10) as u8 as char
    }
}

/// The hexadecimal digit of `id` at `place`, counted from the most
/// significant of its thirty-two digits
pub open spec fn digit_at(id: u128, place: int) -> int {
    ((id as int) / vstd::arithmetic::power::pow(16, (31 - place) as nat)) % 16
}

/// How many hyphens stand before position `index` of the hyphenated text
pub open spec fn hyphens_before(index: int) -> int {
    if index > 23 {
        4
    } else if index > 18 {
        3
    } else if index > 13 {
        2
    } else if index > 8 {
        1
    } else {
        0
    }
}

/// The character at position `index` of the hyphenated text of `id`
pub open spec fn hyphenated_char(id: u128, index: int) -> char {
    if index == 8 || index == 13 || index == 18 || index == 23 {
        '-'
    } else {
        hex_digit(digit_at(id, index - hyphens_before(index)))
    }
}

/// The hyphenated text of an identifier: its thirty-two lower-case
/// hexadecimal digits, most significant first, in groups of eight, four,
/// four, four and twelve
pub open spec fn hyphenated(id: u128) -> Seq<char> {
    Seq::new(36, |index: int| hyphenated_char(id, index))
}

/// Write an identifier as text.
///
/// Calls `uuid::Uuid::from_u128` and the `Display` of the `Uuid` it gives.
/// Trusted: the text is the hyphenated lower-case form of the value read
/// most significant byte first, as the documentation of both shows.
#[verifier::external_body]
pub(crate) fn id_text(id: u128) -> (text: String)
    ensures
        text@ == hyphenated(id),
{
    uuid::Uuid::from_u128(id).to_string()
}

} // verus!
