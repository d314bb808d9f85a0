use vstd::prelude::*;
use vstd::string::StringSliceAdditionalSpecFns;
use crate::decimal::{decimal_value, parse_decimal_range};
use crate::primality::{is_nice_prime, nice_number};
use crate::words::{is_ascii_space, is_word, space_byte, word_end};

verus! {

/// The decision made on one message.
#[derive(Debug, PartialEq, Eq)]
pub enum Classification {
    /// Stay silent.
    NoReply,
    /// Answer the message with this text.
    Reply(String),
}

impl View for Classification {
    /// `None` for silence, the reply's characters otherwise.
    type V = Option<Seq<char>>;

    open spec fn view(&self) -> Option<Seq<char>> {
        match self {
            Classification::NoReply => None,
            Classification::Reply(t) => Some(t@),
        }
    }
}

/// The text of every reply.
pub const REPLY_TEXT: &'static str = "nice prime";

/// `s[i..j]` is a word that reads as a number worth a reply.
pub open spec fn nice_word(s: Seq<u8>, i: int, j: int) -> bool {
    &&& is_word(s, i, j)
    &&& match decimal_value(s.subrange(i, j)) {
        Some(v) => nice_number(v),
        None => false,
    }
}

/// Some whitespace-separated word of `s` reads as a number worth a reply.
pub open spec fn has_nice_word(s: Seq<u8>) -> bool {
    exists|i: int, j: int| nice_word(s, i, j)
}

/// What a message gets: silence when a bot wrote it or when none of its words
/// is a nice prime, the reply text otherwise.
pub open spec fn outcome(author_is_bot: bool, text: Seq<u8>) -> Option<Seq<char>> {
    if !author_is_bot && has_nice_word(text) {
        Some(REPLY_TEXT@)
    } else {
        None
    }
}

/// Whether `text[start..end]` reads as a number worth a reply.
fn word_is_nice(text: &[u8], start: usize, end: usize) -> (r: bool)
    requires
        start <= end <= text@.len(),
    ensures
        r == match decimal_value(text@.subrange(start as int, end as int)) {
            Some(v) => nice_number(v),
            None => false,
        },
{
    match parse_decimal_range(text, start, end) {
        Some(v) => is_nice_prime(v),
        None => false,
    }
}

/// Whether some word of `text` reads as a number worth a reply.
fn find_nice_word(text: &[u8]) -> (r: bool)
    ensures
        r == has_nice_word(text@),
{
    let ghost s = text@;
    let n = text.len();
    let mut pos: usize = 0;
    while pos < n
        invariant
            n == s.len(),
            s == text@,
            pos <= n,
            pos == 0 || pos == n || space_byte(s[pos - 1]),
            forall|i: int, j: int| i < pos && #[trigger] nice_word(s, i, j) ==> false,
        decreases n - pos,
    {
        if is_ascii_space(text[pos]) {
            pos = pos + 1;
        } else {
            let start = pos;
            let end = word_end(text, start);
            assert(is_word(s, start as int, end as int));
            if word_is_nice(text, start, end) {
                assert(nice_word(s, start as int, end as int));
                return true;
            }
            assert forall|i: int, j: int| i < end && #[trigger] nice_word(s, i, j) implies false by {
                if i == start {
                    if j < end {
                        assert(!space_byte(s[j]));
                    } else if j > end {
                        assert(!space_byte(s[end as int]));
                    }
                } else if i > start {
                    assert(!space_byte(s[i - 1]));
                }
            }
            if end < n {
                pos = end + 1;
            } else {
                pos = end;
            }
        }
    }
    false
}

/// Decides on a message given as the bytes of its rendered text.
pub fn classify_bytes(author_is_bot: bool, text: &[u8]) -> (r: Classification)
    ensures
        r@ == outcome(author_is_bot, text@),
{
    if author_is_bot {
        return Classification::NoReply;
    }
    if find_nice_word(text) {
        Classification::Reply(REPLY_TEXT.to_owned())
    } else {
        Classification::NoReply
    }
}

/// Decides on a message from whether its author is a bot and its rendered
/// text: the reply text when a human wrote it and one of its
/// whitespace-separated words is a base-ten number above ten that is prime.
pub fn classify(author_is_bot: bool, rendered_text: &str) -> (r: Classification)
    ensures
        r@ == outcome(author_is_bot, rendered_text.spec_bytes()),
{
    classify_bytes(author_is_bot, rendered_text.as_bytes())
}

/// A message written by a bot is never answered, whatever its text.
pub proof fn lemma_bot_messages_never_answered(text: Seq<u8>)
    ensures
        outcome(true, text) == None::<Seq<char>>,
{
}

/// Classifying is a pure function of its inputs: any two results that
/// `classify` may give on the same inputs are the same decision.
pub proof fn lemma_classify_deterministic(
    author_is_bot: bool,
    text: &str,
    first: Classification,
    second: Classification,
)
    requires
        first@ == outcome(author_is_bot, text.spec_bytes()),
        second@ == outcome(author_is_bot, text.spec_bytes()),
    ensures
        first@ == second@,
{
}

} // verus!
