//! Text helpers on characters: trimming, searching and comparing

use vstd::prelude::*;

verus! {

/// The path separator that slugs are trimmed of
pub const SEPARATOR: char = '/';

/// `text` without the separators it starts with
pub open spec fn without_leading(text: Seq<char>) -> Seq<char>
    decreases text.len(),
{
    if text.len() > 0 && text[0] == SEPARATOR {
        without_leading(text.drop_first())
    } else {
        text
    }
}

/// `text` without the separators it ends with
pub open spec fn without_trailing(text: Seq<char>) -> Seq<char>
    decreases text.len(),
{
    if text.len() > 0 && text.last() == SEPARATOR {
        without_trailing(text.drop_last())
    } else {
        text
    }
}

/// `text` without any separator at either end
pub open spec fn trimmed(text: Seq<char>) -> Seq<char> {
    without_trailing(without_leading(text))
}

/// `text` without its first character, where that is a separator
pub open spec fn without_one_leading(text: Seq<char>) -> Seq<char> {
    if text.len() > 0 && text[0] == SEPARATOR {
        text.drop_first()
    } else {
        text
    }
}

/// `text` without its last character, where that is a separator
pub open spec fn without_one_trailing(text: Seq<char>) -> Seq<char> {
    if text.len() > 0 && text.last() == SEPARATOR {
        text.drop_last()
    } else {
        text
    }
}

/// `text` without one separator at its start and one at its end
pub open spec fn trimmed_once(text: Seq<char>) -> Seq<char> {
    without_one_trailing(without_one_leading(text))
}

/// Dropping the separators in front of a suffix that starts after separators
/// only gives what dropping them from the whole text gives.
proof fn lemma_leading(text: Seq<char>, from: int)
    requires
        0 <= from <= text.len(),
        forall|k: int| 0 <= k < from ==> text[k] == SEPARATOR,
    ensures
        without_leading(text) == without_leading(text.subrange(from, text.len() as int)),
    decreases from,
{
    if from == 0 {
        assert(text.subrange(0, text.len() as int) =~= text);
    } else {
        let rest = text.drop_first();
        lemma_leading(rest, from - 1);
        assert(rest.subrange(from - 1, rest.len() as int) =~= text.subrange(
            from,
            text.len() as int,
        ));
    }
}

/// Dropping the separators behind a prefix that ends before separators only
/// gives what dropping them from the whole text gives.
proof fn lemma_trailing(text: Seq<char>, to: int)
    requires
        0 <= to <= text.len(),
        forall|k: int| to <= k < text.len() ==> text[k] == SEPARATOR,
    ensures
        without_trailing(text) == without_trailing(text.subrange(0, to)),
    decreases text.len() - to,
{
    if to == text.len() {
        assert(text.subrange(0, to) =~= text);
    } else {
        let rest = text.drop_last();
        lemma_trailing(rest, to);
        assert(rest.subrange(0, to) =~= text.subrange(0, to));
    }
}

/// The characters of a string, one by one
pub fn chars_of(text: &str) -> (chars: Vec<char>)
    ensures
        chars@ == text@,
{
    let mut chars: Vec<char> = Vec::new();
    for c in it: text.chars()
        invariant
            chars@ == text@.take(it.index() as int),
            it.seq() == text@,
    {
        chars.push(c);
    }
    chars
}

/// Whether two strings hold the same characters
pub fn same_text(left: &str, right: &str) -> (same: bool)
    ensures
        same == (left@ == right@),
{
    let a = chars_of(left);
    let b = chars_of(right);
    if a.len() != b.len() {
        return false;
    }
    let mut i: usize = 0;
    while i < a.len()
        invariant
            i <= a.len(),
            a.len() == b.len(),
            a@ == left@,
            b@ == right@,
            forall|k: int| 0 <= k < i ==> a@[k] == b@[k],
        decreases a.len() - i,
    {
        if a[i] != b[i] {
            assert(left@[i as int] != right@[i as int]);
            return false;
        }
        i = i + 1;
    }
    assert(a@ =~= b@);
    true
}

/// Whether `text` starts with `prefix`
pub fn begins_with(text: &str, prefix: &str) -> (found: bool)
    ensures
        found == prefix@.is_prefix_of(text@),
{
    let a = chars_of(text);
    let p = chars_of(prefix);
    if p.len() > a.len() {
        return false;
    }
    let mut i: usize = 0;
    while i < p.len()
        invariant
            i <= p.len(),
            p.len() <= a.len(),
            a@ == text@,
            p@ == prefix@,
            forall|k: int| 0 <= k < i ==> a@[k] == p@[k],
        decreases p.len() - i,
    {
        if a[i] != p[i] {
            assert(prefix@[i as int] != text@.subrange(0, prefix@.len() as int)[i as int]);
            return false;
        }
        i = i + 1;
    }
    assert(p@ =~= a@.subrange(0, p@.len() as int));
    true
}

/// Remove every separator at the start and at the end of `text`
pub fn trim_separators(text: &str) -> (slug: &str)
    ensures
        slug@ == trimmed(text@),
{
    let chars = chars_of(text);
    let mut from: usize = 0;
    while from < chars.len() && chars[from] == SEPARATOR
        invariant
            from <= chars.len(),
            forall|k: int| 0 <= k < from ==> chars@[k] == SEPARATOR,
        decreases chars.len() - from,
    {
        from = from + 1;
    }
    let mut to: usize = chars.len();
    while to > from && chars[to - 1] == SEPARATOR
        invariant
            from <= to <= chars.len(),
            forall|k: int| to <= k < chars.len() ==> chars@[k] == SEPARATOR,
        decreases to,
    {
        to = to - 1;
    }
    proof {
        let rest = text@.subrange(from as int, text@.len() as int);
        lemma_leading(text@, from as int);
        assert(without_leading(rest) == rest);
        lemma_trailing(rest, to - from);
        assert(rest.subrange(0, to - from) =~= text@.subrange(from as int, to as int));
    }
    text.substring_char(from, to)
}

/// Remove one separator at the start of `text` and one at its end
pub fn trim_one_separator(text: &str) -> (slug: &str)
    ensures
        slug@ == trimmed_once(text@),
{
    let chars = chars_of(text);
    let mut from: usize = 0;
    if chars.len() > 0 && chars[0] == SEPARATOR {
        from = 1;
    }
    let mut to: usize = chars.len();
    if to > from && chars[to - 1] == SEPARATOR {
        to = to - 1;
    }
    proof {
        let rest = without_one_leading(text@);
        assert(rest =~= text@.subrange(from as int, text@.len() as int));
        assert(without_one_trailing(rest) =~= text@.subrange(from as int, to as int));
    }
    text.substring_char(from, to)
}

/// Whether a character is white space, as Unicode defines the property
pub open spec fn is_white_space(c: char) -> bool {
    let code = c as u32;
    ||| 0x09 <= code <= 0x0d
    ||| code == 0x20
    ||| code == 0x85
    ||| code == 0xa0
    ||| code == 0x1680
    ||| 0x2000 <= code <= 0x200a
    ||| code == 0x2028
    ||| code == 0x2029
    ||| code == 0x202f
    ||| code == 0x205f
    ||| code == 0x3000
}

/// Whether a character is white space
pub fn white_space(c: char) -> (white: bool)
    ensures
        white == is_white_space(c),
{
    let code = c as u32;
    (0x09 <= code && code <= 0x0d) || code == 0x20 || code == 0x85 || code == 0xa0 || code
        == 0x1680 || (0x2000 <= code && code <= 0x200a) || code == 0x2028 || code == 0x2029
        || code == 0x202f || code == 0x205f || code == 0x3000
}

/// `text` without the white space it starts with
pub open spec fn without_leading_space(text: Seq<char>) -> Seq<char>
    decreases text.len(),
{
    if text.len() > 0 && is_white_space(text[0]) {
        without_leading_space(text.drop_first())
    } else {
        text
    }
}

/// `text` without the white space it ends with
pub open spec fn without_trailing_space(text: Seq<char>) -> Seq<char>
    decreases text.len(),
{
    if text.len() > 0 && is_white_space(text.last()) {
        without_trailing_space(text.drop_last())
    } else {
        text
    }
}

/// `text` without white space at either end
pub open spec fn stripped(text: Seq<char>) -> Seq<char> {
    without_trailing_space(without_leading_space(text))
}

/// Dropping the white space in front of a suffix that starts after white
/// space only gives what dropping it from the whole text gives.
proof fn lemma_leading_space(text: Seq<char>, from: int)
    requires
        0 <= from <= text.len(),
        forall|k: int| 0 <= k < from ==> is_white_space(text[k]),
    ensures
        without_leading_space(text) == without_leading_space(
            text.subrange(from, text.len() as int),
        ),
    decreases from,
{
    if from == 0 {
        assert(text.subrange(0, text.len() as int) =~= text);
    } else {
        let rest = text.drop_first();
        lemma_leading_space(rest, from - 1);
        assert(rest.subrange(from - 1, rest.len() as int) =~= text.subrange(
            from,
            text.len() as int,
        ));
    }
}

/// Dropping the white space behind a prefix that ends before white space
/// only gives what dropping it from the whole text gives.
proof fn lemma_trailing_space(text: Seq<char>, to: int)
    requires
        0 <= to <= text.len(),
        forall|k: int| to <= k < text.len() ==> is_white_space(text[k]),
    ensures
        without_trailing_space(text) == without_trailing_space(text.subrange(0, to)),
    decreases text.len() - to,
{
    if to == text.len() {
        assert(text.subrange(0, to) =~= text);
    } else {
        let rest = text.drop_last();
        lemma_trailing_space(rest, to);
        assert(rest.subrange(0, to) =~= text.subrange(0, to));
    }
}

/// Remove the white space at the start and at the end of `text`
pub fn trim_white_space(text: &str) -> (inner: &str)
    ensures
        inner@ == stripped(text@),
{
    let chars = chars_of(text);
    let mut from: usize = 0;
    while from < chars.len() && white_space(chars[from])
        invariant
            from <= chars.len(),
            forall|k: int| 0 <= k < from ==> is_white_space(chars@[k]),
        decreases chars.len() - from,
    {
        from = from + 1;
    }
    let mut to: usize = chars.len();
    while to > from && white_space(chars[to - 1])
        invariant
            from <= to <= chars.len(),
            forall|k: int| to <= k < chars.len() ==> is_white_space(chars@[k]),
        decreases to,
    {
        to = to - 1;
    }
    proof {
        let rest = text@.subrange(from as int, text@.len() as int);
        lemma_leading_space(text@, from as int);
        assert(without_leading_space(rest) == rest);
        lemma_trailing_space(rest, to - from);
        assert(rest.subrange(0, to - from) =~= text@.subrange(from as int, to as int));
    }
    text.substring_char(from, to)
}

/// The separator between the parts of a list
pub const COMMA: char = ',';

/// Where the first comma of `text` stands, or the length of `text` where it
/// holds none
pub open spec fn comma_index(text: Seq<char>) -> int
    decreases text.len(),
{
    if text.len() == 0 || text[0] == COMMA {
        0
    } else {
        1 + comma_index(text.drop_first())
    }
}

/// The parts of `text` between its commas: one more than it has commas
pub open spec fn parts(text: Seq<char>) -> Seq<Seq<char>>
    decreases text.len(),
{
    let at = comma_index(text);
    if 0 <= at < text.len() {
        seq![text.take(at)] + parts(text.skip(at + 1))
    } else {
        seq![text]
    }
}

/// The first comma of a text stands where a comma follows characters that
/// are none.
proof fn lemma_comma_index(text: Seq<char>, at: int)
    requires
        0 <= at <= text.len(),
        forall|k: int| 0 <= k < at ==> text[k] != COMMA,
        at < text.len() ==> text[at] == COMMA,
    ensures
        comma_index(text) == at,
    decreases at,
{
    if at > 0 {
        lemma_comma_index(text.drop_first(), at - 1);
    }
}

/// The views of the parts collected so far
pub open spec fn views(collected: Seq<&str>) -> Seq<Seq<char>> {
    collected.map_values(|part: &str| part@)
}

/// Split `text` at its commas
pub fn split_commas(text: &str) -> (collected: Vec<&str>)
    ensures
        views(collected@) == parts(text@),
{
    let chars = chars_of(text);
    let mut collected: Vec<&str> = Vec::new();
    let mut start: usize = 0;
    let mut i: usize = 0;
    proof {
        assert(text@.skip(0) =~= text@);
        assert(views(collected@) + parts(text@) =~= parts(text@));
    }
    while i < chars.len()
        invariant
            start <= i <= chars.len(),
            chars@ == text@,
            forall|k: int| start <= k < i ==> text@[k] != COMMA,
            parts(text@) == views(collected@) + parts(text@.skip(start as int)),
        decreases chars.len() - i,
    {
        if chars[i] == COMMA {
            let part = text.substring_char(start, i);
            proof {
                let rest = text@.skip(start as int);
                lemma_comma_index(rest, i - start);
                assert(rest.take(i - start) =~= part@);
                assert(rest.skip(i - start + 1) =~= text@.skip(i + 1));
                assert(views(collected@.push(part)) =~= views(collected@) + seq![part@]);
            }
            collected.push(part);
            start = i + 1;
        }
        i = i + 1;
    }
    let part = text.substring_char(start, chars.len());
    proof {
        let rest = text@.skip(start as int);
        lemma_comma_index(rest, rest.len() as int);
        assert(rest =~= part@);
        assert(views(collected@.push(part)) =~= views(collected@) + seq![part@]);
    }
    collected.push(part);
    collected
}

} // verus!
