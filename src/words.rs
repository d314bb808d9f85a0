use vstd::prelude::*;

verus! {

/// The ASCII whitespace bytes: space, tab, line feed, form feed, carriage return.
pub open spec fn space_byte(b: u8) -> bool {
    b == 0x20u8 || b == 0x09u8 || b == 0x0Au8 || b == 0x0Cu8 || b == 0x0Du8
}

/// `s[i..j]` is a word: non-empty, free of whitespace, and bounded by
/// whitespace or by the ends of `s`.
pub open spec fn is_word(s: Seq<u8>, i: int, j: int) -> bool {
    &&& 0 <= i < j <= s.len()
    &&& i == 0 || space_byte(s[i - 1])
    &&& j == s.len() || space_byte(s[j])
    &&& forall|k: int| i <= k < j ==> !space_byte(#[trigger] s[k])
}

/// Whether `b` is an ASCII whitespace byte.
pub fn is_ascii_space(b: u8) -> (r: bool)
    ensures
        r == space_byte(b),
{
    b == 0x20u8 || b == 0x09u8 || b == 0x0Au8 || b == 0x0Cu8 || b == 0x0Du8
}

/// The end of the word that starts at `start`: the first whitespace byte at
/// or after it, or the length of `text`.
pub fn word_end(text: &[u8], start: usize) -> (end: usize)
    requires
        start <= text@.len(),
    ensures
        start <= end <= text@.len(),
        end == text@.len() || space_byte(text@[end as int]),
        forall|k: int| start <= k < end ==> !space_byte(#[trigger] text@[k]),
{
    let mut end: usize = start;
    while end < text.len() && !is_ascii_space(text[end])
        invariant
            start <= end <= text@.len(),
            forall|k: int| start <= k < end ==> !space_byte(#[trigger] text@[k]),
        decreases text@.len() - end,
    {
        end = end + 1;
    }
    end
}

} // verus!
