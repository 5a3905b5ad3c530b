//! Where one text occurs inside another.

use vstd::prelude::*;

verus! {

/// `needle` stands in `haystack`, starting at position `at`.
pub open spec fn occurs_at(haystack: Seq<char>, needle: Seq<char>, at: int) -> bool {
    &&& 0 <= at
    &&& at + needle.len() <= haystack.len()
    &&& haystack.subrange(at, at + needle.len()) == needle
}

/// `needle` stands somewhere in `haystack`.
pub open spec fn contains_text(haystack: Seq<char>, needle: Seq<char>) -> bool {
    exists|at: int| occurs_at(haystack, needle, at)
}

/// A text contains whatever it was put together from.
pub proof fn lemma_part_is_contained(before: Seq<char>, part: Seq<char>, after: Seq<char>)
    ensures
        occurs_at(before + part + after, part, before.len() as int),
        contains_text(before + part + after, part),
{
    let whole = before + part + after;
    let at = before.len() as int;
    assert(whole.subrange(at, at + part.len()) =~= part);
    assert(occurs_at(whole, part, at));
}

/// A text contains its own end.
pub proof fn lemma_end_is_contained(before: Seq<char>, end: Seq<char>)
    ensures
        contains_text(before + end, end),
{
    assert(before + end =~= before + end + Seq::<char>::empty());
    lemma_part_is_contained(before, end, Seq::empty());
}

/// What contains a text contains each part of that text.
pub proof fn lemma_contains_transitive(whole: Seq<char>, part: Seq<char>, piece: Seq<char>)
    requires
        contains_text(whole, part),
        contains_text(part, piece),
    ensures
        contains_text(whole, piece),
{
    let outer = choose|at: int| occurs_at(whole, part, at);
    let inner = choose|at: int| occurs_at(part, piece, at);
    assert(whole.subrange(outer + inner, outer + inner + piece.len()) =~= part.subrange(
        inner,
        inner + piece.len(),
    ));
    assert(occurs_at(whole, piece, outer + inner));
}

} // verus!
