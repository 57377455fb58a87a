//! A guess at what a piece of input is: a token, a document's text, or neither.
//!
//! The guess only chooses between encoding and decoding for a caller that was
//! not told which to do; nothing else rests on it.

use vstd::prelude::*;
use vstd::string::*;

use crate::codec::{scheme, strip_scheme};
use crate::document::{json_parsed, parse_text};

verus! {

/// What a piece of input looks like.
#[derive(Debug, Clone, Copy, PartialEq, Eq, Structural)]
pub enum InputType {
    /// It begins with the scheme: a token.
    VpnUrl,
    /// It is bracketed like a JSON object or array, or parses as JSON.
    Json,
    /// Neither.
    Unknown,
}

/// The characters that Unicode marks `White_Space`.
pub open spec fn is_white_space(c: char) -> bool {
    let u = c as u32;
    ||| 0x09 <= u <= 0x0D
    ||| u == 0x20
    ||| u == 0x85
    ||| u == 0xA0
    ||| u == 0x1680
    ||| 0x2000 <= u <= 0x200A
    ||| u == 0x2028
    ||| u == 0x2029
    ||| u == 0x202F
    ||| u == 0x205F
    ||| u == 0x3000
}

/// `s` without the white space at its two ends.
pub open spec fn trimmed(s: Seq<char>) -> Seq<char>
    decreases s.len(),
{
    if s.len() == 0 {
        s
    } else if is_white_space(s[0]) {
        trimmed(s.drop_first())
    } else if is_white_space(s.last()) {
        trimmed(s.drop_last())
    } else {
        s
    }
}

/// `t` opens and closes like a JSON object or a JSON array.
pub open spec fn bracketed(t: Seq<char>) -> bool {
    t.len() > 0 && ((t[0] == '{' && t.last() == '}') || (t[0] == '[' && t.last() == ']'))
}

/// What trimmed input looks like by its first and last characters, where
/// those settle it.
pub open spec fn shape_of(t: Seq<char>) -> Option<InputType> {
    if scheme().is_prefix_of(t) {
        Some(InputType::VpnUrl)
    } else if bracketed(t) {
        Some(InputType::Json)
    } else {
        None
    }
}

/// What a piece of input is taken for.
pub open spec fn input_type_of(input: Seq<char>) -> InputType {
    let t = trimmed(input);
    match shape_of(t) {
        Some(kind) => kind,
        None => if json_parsed(t) is Some {
            InputType::Json
        } else {
            InputType::Unknown
        },
    }
}

/// Trimming leaves the stretch between the first and the last character that
/// is not white space.
proof fn lemma_trimmed_is_subrange(s: Seq<char>, start: int, end: int)
    requires
        0 <= start <= end <= s.len(),
        forall|k: int| 0 <= k < start ==> is_white_space(#[trigger] s[k]),
        forall|k: int| end <= k < s.len() ==> is_white_space(#[trigger] s[k]),
        start < end ==> !is_white_space(s[start]) && !is_white_space(s[end - 1]),
    ensures
        trimmed(s) == s.subrange(start, end),
    decreases s.len(),
{
    if s.len() == 0 {
        assert(s.subrange(start, end) =~= s);
    } else if is_white_space(s[0]) {
        let rest = s.drop_first();
        if start == 0 {
            assert forall|k: int| 0 <= k < rest.len() implies is_white_space(
                #[trigger] rest[k],
            ) by {
                assert(rest[k] == s[k + 1]);
            }
            lemma_trimmed_is_subrange(rest, 0, 0);
            assert(rest.subrange(0, 0) =~= s.subrange(start, end));
        } else {
            assert forall|k: int| 0 <= k < start - 1 implies is_white_space(
                #[trigger] rest[k],
            ) by {
                assert(rest[k] == s[k + 1]);
            }
            assert forall|k: int| end - 1 <= k < rest.len() implies is_white_space(
                #[trigger] rest[k],
            ) by {
                assert(rest[k] == s[k + 1]);
            }
            lemma_trimmed_is_subrange(rest, start - 1, end - 1);
            assert(rest.subrange(start - 1, end - 1) =~= s.subrange(start, end));
        }
    } else if is_white_space(s.last()) {
        let rest = s.drop_last();
        assert(start == 0);
        lemma_trimmed_is_subrange(rest, start, end);
        assert(rest.subrange(start, end) =~= s.subrange(start, end));
    } else {
        assert(start == 0);
        assert(s.subrange(start, end) =~= s);
    }
}

/// Whether `c` is white space.
pub fn is_space(c: char) -> (b: bool)
    ensures
        b == is_white_space(c),
{
    let u: u32 = c as u32;
    (0x09 <= u && u <= 0x0D) || u == 0x20 || u == 0x85 || u == 0xA0 || u == 0x1680 || (0x2000 <= u
        && u <= 0x200A) || u == 0x2028 || u == 0x2029 || u == 0x202F || u == 0x205F || u == 0x3000
}

/// Takes the white space off both ends of `input`.
pub fn trim(input: &str) -> (res: &str)
    ensures
        res@ == trimmed(input@),
{
    broadcast use vstd::string::axiom_spec_iter;

    let n = input.unicode_len();
    let mut start: usize = 0;
    let mut end: usize = 0;
    let mut i: usize = 0;
    for c in it: input.chars()
        invariant
            it.seq() == input@,
            n == input@.len(),
            i == it.index(),
            start <= end <= i,
            forall|k: int| 0 <= k < start ==> is_white_space(#[trigger] input@[k]),
            forall|k: int| end <= k < i ==> is_white_space(#[trigger] input@[k]),
            start < end ==> !is_white_space(input@[start as int]) && !is_white_space(
                input@[end - 1],
            ),
            start == end ==> end == i,
    {
        if !is_space(c) {
            if start == end {
                start = i;
            }
            end = i + 1;
        } else if start == end {
            start = i + 1;
            end = i + 1;
        }
        i = i + 1;
    }
    proof {
        lemma_trimmed_is_subrange(input@, start as int, end as int);
    }
    input.substring_char(start, end)
}

/// Classifies trimmed input by the scheme and by its brackets; `None` where
/// neither says what it is.
pub fn detect_shape(text: &str) -> (res: Option<InputType>)
    ensures
        res == shape_of(text@),
{
    if strip_scheme(text).is_some() {
        return Some(InputType::VpnUrl);
    }
    let n = text.unicode_len();
    if n > 0 {
        let first = text.get_char(0);
        let last = text.get_char(n - 1);
        if (first == '{' && last == '}') || (first == '[' && last == ']') {
            return Some(InputType::Json);
        }
    }
    None
}

/// Guesses what `input` is: a token, a document's text, or neither.
pub fn detect_input_type(input: &str) -> (kind: InputType)
    ensures
        kind == input_type_of(input@),
{
    let text = trim(input);
    match detect_shape(text) {
        Some(kind) => kind,
        None => if parse_text(text).is_ok() {
            InputType::Json
        } else {
            InputType::Unknown
        },
    }
}

} // verus!
