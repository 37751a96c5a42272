//! URLs: parsing them, reading their query pairs and adding to them

use vstd::prelude::*;
use vstd::utf8::encode_utf8;

use url::Url;

verus! {

/// A parsed URL, as the `url` crate holds it
#[verifier::external_type_specification]
#[verifier::external_body]
pub struct ExUrl(url::Url);

/// A name/value pair of a query string
pub type QueryPair = (String, String);

/// The serialization that a parsed URL holds
pub uninterp spec fn url_text(url: url::Url) -> Seq<char>;

/// What parsing a text as an absolute URL gives: the serialization of the
/// parsed URL, or the text of the parse error
pub uninterp spec fn url_parse(input: Seq<char>) -> Result<Seq<char>, Seq<char>>;

/// The name/value pairs in the query string of the URL with the given
/// serialization, percent-decoded, in their order
pub uninterp spec fn url_query_pairs(text: Seq<char>) -> Seq<(Seq<char>, Seq<char>)>;

/// The serialization of the URL with the given serialization after the pairs
/// were appended, in that order, to its query string
pub uninterp spec fn url_extended(text: Seq<char>, pairs: Seq<(Seq<char>, Seq<char>)>) -> Seq<
    char,
>;

/// The pairs as mathematical values
pub open spec fn pairs_view(pairs: Seq<QueryPair>) -> Seq<(Seq<char>, Seq<char>)> {
    pairs.map_values(|pair: QueryPair| (pair.0@, pair.1@))
}

/// The most bytes by which appending the pairs lengthens a query string: for
/// each pair a separator, an equals sign and three bytes for each byte of the
/// name and of the value; and a question mark
pub open spec fn growth(pairs: Seq<(Seq<char>, Seq<char>)>) -> int
    decreases pairs.len(),
{
    if pairs.len() == 0 {
        1
    } else {
        growth(pairs.drop_last()) + 2 + 3 * encode_utf8(pairs.last().0).len() + 3 * encode_utf8(
            pairs.last().1,
        ).len()
    }
}

/// The longest serialization, in bytes, that a URL can have
pub const MAX_URL_BYTES: usize = 0xffff_ffff;

/// Whether a URL of the given serialization has room for the pairs
pub open spec fn has_room(text: Seq<char>, pairs: Seq<(Seq<char>, Seq<char>)>) -> bool {
    encode_utf8(text).len() + growth(pairs) <= MAX_URL_BYTES
}

/// Parse a text as an absolute URL.
///
/// Calls `Url::parse`. Trusted: the outcome is a function of the text alone,
/// named `url_parse`; an error is handed on as the text that its `Display`
/// writes.
#[verifier::external_body]
pub(crate) fn parse(input: &str) -> (parsed: Result<Url, String>)
    ensures
        match parsed {
            Ok(url) => url_parse(input@) == Ok::<Seq<char>, Seq<char>>(url_text(url)),
            Err(message) => url_parse(input@) == Err::<Seq<char>, Seq<char>>(message@),
        },
{
    Url::parse(input).map_err(|error| error.to_string())
}

/// The serialization of a URL.
///
/// Calls `Url::as_str`. Trusted: it hands out the serialization that the URL
/// holds.
#[verifier::external_body]
pub(crate) fn as_str(url: &Url) -> (text: &str)
    ensures
        text@ == url_text(*url),
{
    url.as_str()
}

/// The name/value pairs in the query string of a URL.
///
/// Calls `Url::query_pairs` and collects the pairs that its iterator yields,
/// each as owned strings. Trusted: the pairs are a function of the URL's
/// serialization alone, named `url_query_pairs`.
#[verifier::external_body]
pub(crate) fn query_pairs(url: &Url) -> (pairs: Vec<QueryPair>)
    ensures
        pairs_view(pairs@) == url_query_pairs(url_text(*url)),
{
    url.query_pairs().into_owned().collect()
}

/// Append name/value pairs to the query string of a URL.
///
/// Calls `Url::query_pairs_mut` and `Serializer::extend_pairs` on what it
/// gives. Trusted: the new serialization is a function of the old one and of
/// the pairs alone, named `url_extended`. The `url` crate keeps positions in
/// 32 bits and panics beyond that, so the caller shows that the serialization
/// stays within them.
#[verifier::external_body]
pub(crate) fn extend_query(url: &mut Url, pairs: &Vec<QueryPair>)
    requires
        has_room(url_text(*old(url)), pairs_view(pairs@)),
    ensures
        url_text(*final(url)) == url_extended(url_text(*old(url)), pairs_view(pairs@)),
{
    url.query_pairs_mut().extend_pairs(pairs);
}

} // verus!
