//! Comparing and trimming text.

use vstd::prelude::*;

verus! {

/// Whether two texts hold the same characters.
pub fn same_text(a: &str, b: &str) -> (same: bool)
    ensures
        same == (a@ == b@),
{
    let left: String = a.to_owned();
    let right: String = b.to_owned();
    left == right
}

/// The characters that count as white space.
pub open spec fn is_space(c: char) -> bool {
    let code = c as u32;
    ||| 0x09 <= code <= 0x0D
    ||| code == 0x20
    ||| code == 0x85
    ||| code == 0xA0
    ||| code == 0x1680
    ||| 0x2000 <= code <= 0x200A
    ||| code == 0x2028
    ||| code == 0x2029
    ||| code == 0x202F
    ||| code == 0x205F
    ||| code == 0x3000
}

/// Whether a character counts as white space.
pub fn is_whitespace(c: char) -> (space: bool)
    ensures
        space == is_space(c),
{
    let code: u32 = c as u32;
    (0x09 <= code && code <= 0x0D) || code == 0x20 || code == 0x85 || code == 0xA0 || code
        == 0x1680 || (0x2000 <= code && code <= 0x200A) || code == 0x2028 || code == 0x2029
        || code == 0x202F || code == 0x205F || code == 0x3000
}

/// The index of the first character from `from` on that is no white space,
/// or the length of the text where there is none.
pub open spec fn trim_start(text: Seq<char>, from: int) -> int
    decreases text.len() - from,
{
    if from < 0 || from >= text.len() {
        text.len() as int
    } else if !is_space(text[from]) {
        from
    } else {
        trim_start(text, from + 1)
    }
}

/// The index behind the last character before `upto` that is no white
/// space, or 0 where there is none.
pub open spec fn trim_end(text: Seq<char>, upto: int) -> int
    decreases upto,
{
    if upto <= 0 || upto > text.len() {
        0
    } else if !is_space(text[upto - 1]) {
        upto
    } else {
        trim_end(text, upto - 1)
    }
}

/// A text without the white space at its start and at its end.
pub open spec fn trimmed(text: Seq<char>) -> Seq<char> {
    let start = trim_start(text, 0);
    let end = trim_end(text, text.len() as int);
    if start < end {
        text.subrange(start, end)
    } else {
        Seq::empty()
    }
}

/// Removes the white space at the start and at the end of a text.
pub fn trim<'a>(text: &'a str) -> (inner: &'a str)
    ensures
        inner@ == trimmed(text@),
{
    let n: usize = text.unicode_len();
    let mut start: usize = 0;
    while start < n && is_whitespace(text.get_char(start))
        invariant
            n == text@.len(),
            start <= n,
            trim_start(text@, 0) == trim_start(text@, start as int),
        decreases n - start,
    {
        start += 1;
    }
    let mut end: usize = n;
    while end > start && is_whitespace(text.get_char(end - 1))
        invariant
            n == text@.len(),
            start <= end <= n,
            trim_end(text@, n as int) == trim_end(text@, end as int),
        decreases end,
    {
        end -= 1;
    }
    proof {
        lemma_trim_end_at_most(text@, end as int);
    }
    if start < end {
        text.substring_char(start, end)
    } else {
        text.substring_char(0, 0)
    }
}

/// The end of a trimmed text lies within the text before `upto`.
proof fn lemma_trim_end_at_most(text: Seq<char>, upto: int)
    requires
        0 <= upto <= text.len(),
    ensures
        0 <= trim_end(text, upto) <= upto,
    decreases upto,
{
    if upto > 0 && is_space(text[upto - 1]) {
        lemma_trim_end_at_most(text, upto - 1);
    }
}

} // verus!
