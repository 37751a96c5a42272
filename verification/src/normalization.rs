//! Unicode normalization of slugs

use vstd::prelude::*;

use unicode_normalization::UnicodeNormalization;

verus! {

/// The text in Unicode Normalization Form C: canonical decomposition followed
/// by canonical composition
pub uninterp spec fn nfc_of(text: Seq<char>) -> Seq<char>;

/// Normalize a text to Unicode Normalization Form C.
///
/// Calls `UnicodeNormalization::nfc` of `unicode_normalization` on the text
/// and collects the characters that its iterator yields. Trusted: the result
/// is a function of the text alone, named `nfc_of`.
#[verifier::external_body]
pub(crate) fn nfc(text: &str) -> (normalized: String)
    ensures
        normalized@ == nfc_of(text@),
{
    text.nfc().collect()
}

} // verus!
