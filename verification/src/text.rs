use vstd::prelude::*;
use vstd::string::StringSliceAdditionalSpecFns;
use vstd::utf8::{decode_utf8, encode_utf8_decode_utf8, valid_utf8};

verus! {

/// Decides whether two string slices hold the same characters.
///
/// The comparison runs over the encoded bytes; two texts with the same
/// encoding are the same text, because decoding inverts encoding.
pub fn str_eq(a: &str, b: &str) -> (same: bool)
    ensures
        same == (a@ == b@),
{
    let x = a.as_bytes();
    let y = b.as_bytes();
    proof {
        encode_utf8_decode_utf8(a@);
        encode_utf8_decode_utf8(b@);
    }
    if x.len() != y.len() {
        return false;
    }
    let mut i: usize = 0;
    while i < x.len()
        invariant
            i <= x.len(),
            x.len() == y.len(),
            x@ == a.spec_bytes(),
            y@ == b.spec_bytes(),
            forall|k: int| 0 <= k < i ==> x@[k] == y@[k],
        decreases x.len() - i,
    {
        if x[i] != y[i] {
            return false;
        }
        i += 1;
    }
    assert(x@ =~= y@);
    true
}

/// Copies a list of strings.
pub fn clone_strings(items: &[String]) -> (copy: Vec<String>)
    ensures
        copy.deep_view() == items.deep_view(),
{
    let mut copy: Vec<String> = Vec::new();
    let mut i: usize = 0;
    while i < items.len()
        invariant
            i <= items.len(),
            copy@.len() == i,
            forall|k: int| 0 <= k < i ==> copy@[k]@ == items@[k]@,
        decreases items.len() - i,
    {
        copy.push(items[i].clone());
        i += 1;
    }
    assert(copy.deep_view() =~= items.deep_view());
    copy
}

/// Whether `c` has the Unicode property `White_Space`.
pub open spec fn is_white_space(c: char) -> bool {
    let code = c as u32;
    ||| 0x09 <= code <= 0x0d
    ||| code == 0x20
    ||| code == 0x85
    ||| code == 0xa0
    ||| code == 0x1680
    ||| 0x2000 <= code <= 0x200a
    ||| code == 0x2028
    ||| code == 0x2029
    ||| code == 0x202f
    ||| code == 0x205f
    ||| code == 0x3000
}

/// `text` without the white space it begins with.
pub open spec fn trimmed_start(text: Seq<char>) -> Seq<char>
    decreases text.len(),
{
    if text.len() > 0 && is_white_space(text[0]) {
        trimmed_start(text.drop_first())
    } else {
        text
    }
}

/// `text` without the white space it ends with.
pub open spec fn trimmed_end(text: Seq<char>) -> Seq<char>
    decreases text.len(),
{
    if text.len() > 0 && is_white_space(text.last()) {
        trimmed_end(text.drop_last())
    } else {
        text
    }
}

/// `text` without the white space at its two ends.
pub open spec fn trimmed(text: Seq<char>) -> Seq<char> {
    trimmed_end(trimmed_start(text))
}

/// `str::trim` gives the text between the leading and the trailing white
/// space, where white space is what Unicode's `White_Space` property says.
pub assume_specification[ str::trim ](text: &str) -> (inner: &str)
    ensures
        inner@ == trimmed(text@),
;

/// `text` with every leading copy of `prefix` taken off.
pub open spec fn without_leading(text: Seq<char>, prefix: Seq<char>) -> Seq<char>
    decreases text.len(),
{
    if prefix.len() > 0 && prefix.is_prefix_of(text) {
        without_leading(text.skip(prefix.len() as int), prefix)
    } else {
        text
    }
}

/// Number of characters before the first line feed of `text`, or its
/// length if it holds none.
pub open spec fn first_line_end(text: Seq<char>) -> nat
    decreases text.len(),
{
    if text.len() == 0 || text[0] == '\n' {
        0
    } else {
        1 + first_line_end(text.drop_first())
    }
}

/// The lines of `text`. A line ends with a line feed, or with a carriage
/// return and a line feed; neither belongs to the line. The last line
/// needs no ending, and keeps a carriage return that it ends with.
pub open spec fn lines_of(text: Seq<char>) -> Seq<Seq<char>>
    decreases text.len(),
    via lines_of_decreases
{
    if text.len() == 0 {
        seq![]
    } else {
        let end = first_line_end(text) as int;
        let raw = text.take(end);
        if end >= text.len() {
            seq![raw]
        } else if raw.len() > 0 && raw.last() == '\r' {
            seq![raw.drop_last()] + lines_of(text.skip(end + 1))
        } else {
            seq![raw] + lines_of(text.skip(end + 1))
        }
    }
}

#[via_fn]
proof fn lines_of_decreases(text: Seq<char>) {
}

/// Value of a run of decimal digits.
pub open spec fn decimal_value(digits: Seq<char>) -> nat
    decreases digits.len(),
{
    if digits.len() == 0 {
        0
    } else {
        decimal_value(digits.drop_last()) * 10 + (digits.last() as u32 - '0' as u32) as nat
    }
}

/// The number that `text` writes in decimal: digits only, after at most one
/// plus sign, and no more than a `u16` holds.
pub open spec fn decimal_u16(text: Seq<char>) -> Option<u16> {
    let digits = if text.len() > 0 && text[0] == '+' {
        text.drop_first()
    } else {
        text
    };
    if digits.len() > 0 && (forall|i: int| 0 <= i < digits.len() ==> '0' <= #[trigger] digits[i] <= '9')
        && decimal_value(digits) <= u16::MAX {
        Some(decimal_value(digits) as u16)
    } else {
        None
    }
}

/// The text that `bytes` encode in UTF-8, if they encode one.
pub open spec fn utf8_text(bytes: Seq<u8>) -> Option<Seq<char>> {
    if valid_utf8(bytes) {
        Some(decode_utf8(bytes))
    } else {
        None
    }
}

/// `str::starts_with` with a string as the pattern: whether `text` begins
/// with `prefix`.
#[verifier::external_body]
pub(crate) fn starts_with(text: &str, prefix: &str) -> (yes: bool)
    ensures
        yes == prefix@.is_prefix_of(text@),
{
    text.starts_with(prefix)
}

/// `str::trim_start_matches` with a string that is not empty as the
/// pattern: the pattern is taken off the front as often as it stands there.
#[verifier::external_body]
pub(crate) fn strip_leading<'a>(text: &'a str, prefix: &str) -> (rest: &'a str)
    requires
        prefix@.len() > 0,
    ensures
        rest@ == without_leading(text@, prefix@),
{
    text.trim_start_matches(prefix)
}

/// `str::lines`, with each line copied into a string of its own.
#[verifier::external_body]
pub(crate) fn split_lines(text: &str) -> (lines: Vec<String>)
    ensures
        lines.deep_view() == lines_of(text@),
{
    text.lines().map(|line| line.to_string()).collect()
}

/// `str::parse` for `u16`: the number that the whole of `text` writes in
/// decimal, or nothing where it writes none or one that is too large.
#[verifier::external_body]
pub(crate) fn parse_u16(text: &str) -> (value: Option<u16>)
    ensures
        value == decimal_u16(text@),
{
    text.parse::<u16>().ok()
}

/// `String::from_utf8`: the text that the bytes encode, or nothing where
/// they are no valid UTF-8.
#[verifier::external_body]
pub(crate) fn string_from_utf8(bytes: Vec<u8>) -> (text: Option<String>)
    ensures
        text.deep_view() == utf8_text(bytes@),
{
    String::from_utf8(bytes).ok()
}

} // verus!
