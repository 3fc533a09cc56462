//! The order of file names in a folder listing.
//!
//! Names are ordered without regard to ASCII letter case first, and names
//! that differ in letter case only are ordered as they are written. Both
//! comparisons go byte by byte over the UTF-8 form of the text, so the order
//! is the same on every system and in every locale.

use crate::text::{lowered, to_lowercase};
use vstd::prelude::*;
use vstd::string::StringSliceAdditionalSpecFns;
use vstd::utf8::encode_utf8;

verus! {

/// Whether `left` comes strictly before `right` when both are compared byte
/// by byte: at the first position where they differ the smaller byte
/// decides, and a text comes before every longer text that starts with it.
pub open spec fn bytes_before(left: Seq<u8>, right: Seq<u8>) -> bool
    decreases left.len(),
{
    if right.len() == 0 {
        false
    } else if left.len() == 0 {
        true
    } else if left[0] != right[0] {
        left[0] < right[0]
    } else {
        bytes_before(left.drop_first(), right.drop_first())
    }
}

/// The key by which a name is ordered first: the bytes of its ASCII
/// lower-case form.
pub open spec fn folded_key(name: Seq<char>) -> Seq<u8> {
    encode_utf8(lowered(name))
}

/// Whether the name `left` comes strictly before the name `right` in a
/// listing.
pub open spec fn name_before(left: Seq<char>, right: Seq<char>) -> bool {
    ||| bytes_before(folded_key(left), folded_key(right))
    ||| (folded_key(left) == folded_key(right) && bytes_before(
        encode_utf8(left),
        encode_utf8(right),
    ))
}

/// How one text stands to another.
#[derive(Clone, Copy, Debug, PartialEq, Eq)]
pub enum Precedence {
    Before,
    Same,
    After,
}

/// How `left` stands to `right`, byte by byte.
pub open spec fn bytes_precedence(left: Seq<u8>, right: Seq<u8>) -> Precedence {
    if bytes_before(left, right) {
        Precedence::Before
    } else if left == right {
        Precedence::Same
    } else {
        Precedence::After
    }
}

/// No text comes before itself.
pub proof fn lemma_bytes_before_irreflexive(text: Seq<u8>)
    ensures
        !bytes_before(text, text),
    decreases text.len(),
{
    if text.len() > 0 {
        lemma_bytes_before_irreflexive(text.drop_first());
    }
}

/// Of two different texts, exactly one comes before the other.
pub proof fn lemma_bytes_before_total(left: Seq<u8>, right: Seq<u8>)
    ensures
        left != right ==> (bytes_before(left, right) <==> !bytes_before(right, left)),
        left == right ==> !bytes_before(left, right) && !bytes_before(right, left),
    decreases left.len(),
{
    if left == right {
        lemma_bytes_before_irreflexive(left);
    } else if left.len() > 0 && right.len() > 0 && left[0] == right[0] {
        lemma_bytes_before_total(left.drop_first(), right.drop_first());
        if left.drop_first() == right.drop_first() {
            assert(left =~= seq![left[0]] + left.drop_first());
            assert(right =~= seq![right[0]] + right.drop_first());
        }
    } else if left.len() == 0 && right.len() == 0 {
        assert(left =~= right);
    }
}

/// What comes before something that comes before a third text comes before
/// that text.
pub proof fn lemma_bytes_before_transitive(first: Seq<u8>, second: Seq<u8>, third: Seq<u8>)
    requires
        bytes_before(first, second),
        bytes_before(second, third),
    ensures
        bytes_before(first, third),
    decreases first.len(),
{
    if first.len() > 0 && first[0] == second[0] && second[0] == third[0] {
        lemma_bytes_before_transitive(
            first.drop_first(),
            second.drop_first(),
            third.drop_first(),
        );
    }
}

/// Compares two texts byte by byte.
pub fn compare_bytes(left: &[u8], right: &[u8]) -> (order: Precedence)
    ensures
        order == bytes_precedence(left@, right@),
{
    let mut index: usize = 0;
    assert(left@.skip(0) =~= left@);
    assert(right@.skip(0) =~= right@);
    assert(left@.take(0) =~= right@.take(0));
    while index < left.len() && index < right.len()
        invariant
            index <= left.len(),
            index <= right.len(),
            left@.take(index as int) == right@.take(index as int),
            bytes_before(left@, right@) == bytes_before(
                left@.skip(index as int),
                right@.skip(index as int),
            ),
        decreases left.len() - index,
    {
        let ghost left_rest = left@.skip(index as int);
        let ghost right_rest = right@.skip(index as int);
        assert(left_rest[0] == left@[index as int]);
        assert(right_rest[0] == right@[index as int]);
        if left[index] < right[index] {
            proof {
                lemma_differs_somewhere(left@, right@, index as int);
            }
            return Precedence::Before;
        }
        if left[index] > right[index] {
            proof {
                lemma_differs_somewhere(left@, right@, index as int);
            }
            return Precedence::After;
        }
        assert(left_rest.drop_first() =~= left@.skip(index + 1));
        assert(right_rest.drop_first() =~= right@.skip(index + 1));
        assert(left@.take(index + 1) =~= left@.take(index as int).push(left@[index as int]));
        assert(right@.take(index + 1) =~= right@.take(index as int).push(right@[index as int]));
        index = index + 1;
    }
    if index < right.len() {
        assert(left@.skip(index as int).len() == 0);
        assert(left@ != right@);
        Precedence::Before
    } else if index < left.len() {
        assert(right@.skip(index as int).len() == 0);
        assert(left@ != right@);
        Precedence::After
    } else {
        assert(left@ =~= left@.take(index as int));
        assert(right@ =~= right@.take(index as int));
        proof {
            lemma_bytes_before_irreflexive(left@);
        }
        Precedence::Same
    }
}

/// Two texts that differ at one position are not the same text.
proof fn lemma_differs_somewhere(left: Seq<u8>, right: Seq<u8>, position: int)
    requires
        0 <= position < left.len(),
        0 <= position < right.len(),
        left[position] != right[position],
    ensures
        left != right,
{
}

/// How the name `left` stands to the name `right` in a listing.
pub open spec fn name_precedence(left: Seq<char>, right: Seq<char>) -> Precedence {
    if name_before(left, right) {
        Precedence::Before
    } else if name_before(right, left) {
        Precedence::After
    } else {
        Precedence::Same
    }
}

/// Compares two names for a listing.
pub fn compare_names(left: &str, right: &str) -> (order: Precedence)
    ensures
        order == name_precedence(left@, right@),
{
    let left_folded = to_lowercase(left);
    let right_folded = to_lowercase(right);
    proof {
        lemma_bytes_before_total(folded_key(left@), folded_key(right@));
        lemma_bytes_before_total(encode_utf8(left@), encode_utf8(right@));
    }
    match compare_bytes(left_folded.as_str().as_bytes(), right_folded.as_str().as_bytes()) {
        Precedence::Before => Precedence::Before,
        Precedence::After => Precedence::After,
        Precedence::Same => compare_bytes(left.as_bytes(), right.as_bytes()),
    }
}

/// Whether `left` comes strictly before `right` in a listing.
pub fn is_name_before(left: &str, right: &str) -> (before: bool)
    ensures
        before == name_before(left@, right@),
{
    match compare_names(left, right) {
        Precedence::Before => true,
        _ => false,
    }
}

/// No name comes before itself.
pub proof fn lemma_name_before_irreflexive(name: Seq<char>)
    ensures
        !name_before(name, name),
{
    lemma_bytes_before_irreflexive(folded_key(name));
    lemma_bytes_before_irreflexive(encode_utf8(name));
}

/// Of two different names, exactly one comes before the other; the order
/// leaves no two names tied.
pub proof fn lemma_name_before_total(left: Seq<char>, right: Seq<char>)
    ensures
        left != right ==> (name_before(left, right) <==> !name_before(right, left)),
        left == right ==> !name_before(left, right) && !name_before(right, left),
{
    lemma_bytes_before_total(folded_key(left), folded_key(right));
    lemma_bytes_before_total(encode_utf8(left), encode_utf8(right));
    if encode_utf8(left) == encode_utf8(right) {
        vstd::utf8::encode_utf8_decode_utf8(left);
        vstd::utf8::encode_utf8_decode_utf8(right);
    }
}

/// What comes before a name that comes before a third name comes before
/// that name.
pub proof fn lemma_name_before_transitive(first: Seq<char>, second: Seq<char>, third: Seq<char>)
    requires
        name_before(first, second),
        name_before(second, third),
    ensures
        name_before(first, third),
{
    let a = folded_key(first);
    let b = folded_key(second);
    let c = folded_key(third);
    if bytes_before(a, b) && bytes_before(b, c) {
        lemma_bytes_before_transitive(a, b, c);
    } else if a == b && b == c {
        lemma_bytes_before_transitive(encode_utf8(first), encode_utf8(second), encode_utf8(third));
    }
}

/// What does not come after a name that comes before a third name comes
/// before that name; and what comes before a name that does not come after
/// a third name comes before that one.
pub proof fn lemma_name_before_chains(first: Seq<char>, second: Seq<char>, third: Seq<char>)
    ensures
        !name_before(second, first) && name_before(second, third) ==> name_before(first, third),
        name_before(first, second) && !name_before(third, second) ==> name_before(first, third),
{
    lemma_name_before_total(first, second);
    lemma_name_before_total(second, third);
    if !name_before(second, first) && name_before(second, third) && first != second {
        lemma_name_before_transitive(first, second, third);
    }
    if name_before(first, second) && !name_before(third, second) && second != third {
        lemma_name_before_transitive(first, second, third);
    }
}

} // verus!
