//! Text helpers shared by the parser, the classifier and the payload builders.
//!
//! Strings are modelled by their view, a `Seq<char>`. What can be built from
//! the string operations that the verifier's library describes is built and
//! proved here; folding to lower case is the one operation that is taken
//! from the standard library on trust.

use vstd::prelude::*;
use vstd::string::StrSliceExecFns;
use vstd::string::StringExecFns;
use vstd::string::StringSliceAdditionalSpecFns;
use vstd::utf8::encode_utf8_decode_utf8;

verus! {

/// The ASCII lower-case form of one character: `'A'..='Z'` move to
/// `'a'..='z'`, every other character stays as it is.
pub open spec fn ascii_lower(c: char) -> char {
    if 'A' <= c && c <= 'Z' {
        ((c as u8 + 32) as u8) as char
    } else {
        c
    }
}

/// A text with every character replaced by its ASCII lower-case form.
pub open spec fn lowered(text: Seq<char>) -> Seq<char> {
    Seq::new(text.len(), |i: int| ascii_lower(text[i]))
}

/// A token looks like a flag when it starts with a dash.
pub open spec fn looks_like_flag(text: Seq<char>) -> bool {
    text.len() > 0 && text[0] == '-'
}

/// What is left of `text` once `prefix` is taken from its front, if `text`
/// starts with `prefix`.
pub open spec fn without_prefix(text: Seq<char>, prefix: Seq<char>) -> Option<Seq<char>> {
    if prefix.is_prefix_of(text) {
        Some(text.skip(prefix.len() as int))
    } else {
        None
    }
}

/// Whether `message` holds `part` somewhere in it, letter for letter.
pub open spec fn mentions(message: Seq<char>, part: Seq<char>) -> bool {
    exists|start: int|
        0 <= start && start + part.len() <= message.len() && #[trigger] message.subrange(
            start,
            start + part.len(),
        ) == part
}

/// Whether a text ends in a slash.
pub open spec fn ends_in_slash(text: Seq<char>) -> bool {
    text.len() > 0 && text.last() == '/'
}

/// A message put together around a text holds that text.
pub proof fn lemma_message_mentions(opening: Seq<char>, part: Seq<char>, closing: Seq<char>)
    ensures
        mentions(opening + part + closing, part),
{
    let message = opening + part + closing;
    let start = opening.len() as int;
    assert(message.subrange(start, start + part.len()) =~= part);
}

/// The view of an optional text.
pub open spec fn text_of(value: Option<String>) -> Option<Seq<char>> {
    match value {
        Some(text) => Some(text@),
        None => None,
    }
}

/// The view of an optional borrowed text.
pub open spec fn borrowed_text(value: Option<&str>) -> Option<Seq<char>> {
    match value {
        Some(text) => Some(text@),
        None => None,
    }
}

/// The view of a result that holds a text or a reason.
pub open spec fn text_result(result: Result<String, String>) -> Result<Seq<char>, Seq<char>> {
    match result {
        Ok(text) => Ok(text@),
        Err(reason) => Err(reason@),
    }
}

/// Trusted: `str::to_ascii_lowercase`. The standard library documents that
/// the result is a copy in which each character is mapped to its ASCII lower
/// case equivalent, `'A'..='Z'` to `'a'..='z'`, and that all other characters
/// are unchanged.
#[verifier::external_body]
pub(crate) fn to_lowercase(text: &str) -> (lower: String)
    ensures
        lower@ == lowered(text@),
{
    text.to_ascii_lowercase()
}

/// Whether two runs of bytes are the same.
pub fn same_bytes(left: &[u8], right: &[u8]) -> (same: bool)
    ensures
        same == (left@ == right@),
{
    if left.len() != right.len() {
        return false;
    }
    let mut index: usize = 0;
    while index < left.len()
        invariant
            index <= left.len(),
            left.len() == right.len(),
            forall|i: int| 0 <= i < index ==> left@[i] == right@[i],
        decreases left.len() - index,
    {
        if left[index] != right[index] {
            return false;
        }
        index = index + 1;
    }
    assert(left@ =~= right@);
    true
}

/// Whether two texts are the same. Texts are the same exactly when their
/// UTF-8 forms are.
pub fn same_text(left: &str, right: &str) -> (same: bool)
    ensures
        same == (left@ == right@),
{
    proof {
        encode_utf8_decode_utf8(left@);
        encode_utf8_decode_utf8(right@);
    }
    same_bytes(left.as_bytes(), right.as_bytes())
}

/// Whether `text` starts with a dash.
pub fn starts_with_dash(text: &str) -> (dash: bool)
    ensures
        dash == looks_like_flag(text@),
{
    if text.is_empty() {
        false
    } else {
        text.get_char(0) == '-'
    }
}

/// Takes `prefix` from the front of `text`.
pub fn strip_prefix<'a>(text: &'a str, prefix: &str) -> (rest: Option<&'a str>)
    ensures
        match rest {
            Some(tail) => Some(tail@) == without_prefix(text@, prefix@),
            None => without_prefix(text@, prefix@) is None,
        },
{
    let text_len: usize = text.unicode_len();
    let prefix_len: usize = prefix.unicode_len();
    if prefix_len > text_len {
        return None;
    }
    let head = text.substring_char(0, prefix_len);
    if same_text(head, prefix) {
        Some(text.substring_char(prefix_len, text_len))
    } else {
        None
    }
}

/// Joins two pieces of text.
pub fn join2(first: &str, second: &str) -> (joined: String)
    ensures
        joined@ == first@ + second@,
{
    String::from_str(first).concat(second)
}

/// Joins three pieces of text.
pub fn join3(first: &str, second: &str, third: &str) -> (joined: String)
    ensures
        joined@ == first@ + second@ + third@,
{
    String::from_str(first).concat(second).concat(third)
}

/// Joins four pieces of text.
pub fn join4(first: &str, second: &str, third: &str, fourth: &str) -> (joined: String)
    ensures
        joined@ == first@ + second@ + third@ + fourth@,
{
    String::from_str(first).concat(second).concat(third).concat(fourth)
}

} // verus!
