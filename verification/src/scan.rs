//! Searching and cutting byte strings.
//!
//! Everything the server reads off the wire is cut at the first place where
//! a separator stands. This module says what "the first place" means and
//! finds it.

use vstd::prelude::*;

verus! {

/// `pattern` stands in `text` at index `at`.
pub open spec fn occurs_at(text: Seq<u8>, pattern: Seq<u8>, at: int) -> bool {
    &&& 0 <= at
    &&& at + pattern.len() <= text.len()
    &&& text.subrange(at, at + pattern.len()) == pattern
}

/// `pattern` stands in `text` at `at`, and nowhere before it.
pub open spec fn is_first_occurrence(text: Seq<u8>, pattern: Seq<u8>, at: int) -> bool {
    &&& occurs_at(text, pattern, at)
    &&& forall|earlier: int| earlier < at ==> !occurs_at(text, pattern, earlier)
}

/// The least index at which `pattern` stands in `text`, if it stands anywhere.
pub open spec fn first_occurrence(text: Seq<u8>, pattern: Seq<u8>) -> Option<int> {
    if exists|at: int| is_first_occurrence(text, pattern, at) {
        Some(choose|at: int| is_first_occurrence(text, pattern, at))
    } else {
        None
    }
}

/// What stands before and after the first occurrence of `pattern`, the
/// pattern itself left out.
pub open spec fn split_at_first(text: Seq<u8>, pattern: Seq<u8>) -> Option<(Seq<u8>, Seq<u8>)> {
    match first_occurrence(text, pattern) {
        Some(at) => Some(
            (text.subrange(0, at), text.subrange(at + pattern.len(), text.len() as int)),
        ),
        None => None,
    }
}

/// `text` begins with `prefix`.
pub open spec fn has_prefix(text: Seq<u8>, prefix: Seq<u8>) -> bool {
    occurs_at(text, prefix, 0)
}

/// Where a pattern occurs at all, it has a first occurrence, at or before
/// the given one.
pub proof fn lemma_occurrence_has_first(text: Seq<u8>, pattern: Seq<u8>, at: int)
    requires
        occurs_at(text, pattern, at),
    ensures
        exists|first: int| first <= at && is_first_occurrence(text, pattern, first),
    decreases at,
{
    if exists|earlier: int| earlier < at && occurs_at(text, pattern, earlier) {
        let earlier = choose|earlier: int| earlier < at && occurs_at(text, pattern, earlier);
        lemma_occurrence_has_first(text, pattern, earlier);
    } else {
        assert(is_first_occurrence(text, pattern, at));
    }
}

/// `first_occurrence` is the first occurrence where there is one, and
/// `None` only where the pattern stands nowhere in the text.
pub proof fn lemma_first_occurrence(text: Seq<u8>, pattern: Seq<u8>)
    ensures
        match first_occurrence(text, pattern) {
            Some(at) => is_first_occurrence(text, pattern, at),
            None => forall|at: int| !occurs_at(text, pattern, at),
        },
{
    if first_occurrence(text, pattern) is None {
        assert forall|at: int| !occurs_at(text, pattern, at) by {
            if occurs_at(text, pattern, at) {
                lemma_occurrence_has_first(text, pattern, at);
            }
        }
    }
}

/// A place known to be the first occurrence is what `first_occurrence` gives.
pub proof fn lemma_first_occurrence_is(text: Seq<u8>, pattern: Seq<u8>, at: int)
    requires
        is_first_occurrence(text, pattern, at),
    ensures
        first_occurrence(text, pattern) == Some(at),
{
    let chosen = choose|at: int| is_first_occurrence(text, pattern, at);
    assert(chosen == at);
}

/// A text put together from a head, the pattern and a tail is cut back
/// into head and tail, provided that the pattern does not occur in the
/// text before the end of the head.
pub proof fn lemma_split_at_first_of_joined(before: Seq<u8>, pattern: Seq<u8>, after: Seq<u8>)
    requires
        forall|at: int|
            0 <= at < before.len() ==> !occurs_at(before + pattern + after, pattern, at),
    ensures
        split_at_first(before + pattern + after, pattern) == Some((before, after)),
{
    let text = before + pattern + after;
    let at = before.len() as int;
    assert(text.subrange(at, at + pattern.len()) =~= pattern);
    lemma_first_occurrence_is(text, pattern, at);
}

/// Tells whether `pattern` stands in `text` at index `at`.
pub fn matches_at(text: &[u8], pattern: &[u8], at: usize) -> (found: bool)
    ensures
        found == occurs_at(text@, pattern@, at as int),
{
    if pattern.len() > text.len() || at > text.len() - pattern.len() {
        return false;
    }
    let mut k: usize = 0;
    while k < pattern.len()
        invariant
            k <= pattern.len(),
            at + pattern.len() <= text.len(),
            forall|j: int| 0 <= j < k ==> text@[at + j] == pattern@[j],
        decreases pattern.len() - k,
    {
        if text[at + k] != pattern[k] {
            return false;
        }
        k += 1;
    }
    assert(text@.subrange(at as int, at + pattern.len()) =~= pattern@);
    true
}

/// Finds the first occurrence of `pattern` in `text`.
pub fn find(text: &[u8], pattern: &[u8]) -> (found: Option<usize>)
    ensures
        match found {
            Some(at) => first_occurrence(text@, pattern@) == Some(at as int),
            None => first_occurrence(text@, pattern@) is None,
        },
        match found {
            Some(at) => is_first_occurrence(text@, pattern@, at as int),
            None => forall|at: int| !occurs_at(text@, pattern@, at),
        },
{
    if pattern.len() > text.len() {
        return None;
    }
    let last: usize = text.len() - pattern.len();
    let mut at: usize = 0;
    loop
        invariant
            last == text.len() - pattern.len(),
            at <= last,
            forall|earlier: int| earlier < at ==> !occurs_at(text@, pattern@, earlier),
        decreases last - at,
    {
        if matches_at(text, pattern, at) {
            proof {
                lemma_first_occurrence_is(text@, pattern@, at as int);
            }
            return Some(at);
        }
        if at == last {
            return None;
        }
        at += 1;
    }
}

/// Tells whether two byte strings are the same.
pub fn same_bytes(a: &[u8], b: &[u8]) -> (same: bool)
    ensures
        same == (a@ == b@),
{
    if a.len() != b.len() {
        return false;
    }
    let same = matches_at(a, b, 0);
    assert(a@.subrange(0, a@.len() as int) =~= a@);
    same
}

/// Tells whether `text` begins with `prefix`.
pub fn starts_with(text: &[u8], prefix: &[u8]) -> (yes: bool)
    ensures
        yes == has_prefix(text@, prefix@),
{
    matches_at(text, prefix, 0)
}

/// Cuts `text` at the first occurrence of `pattern`: what stands before
/// it, and what stands after it.
pub fn split_once<'a>(text: &'a [u8], pattern: &[u8]) -> (halves: Option<(&'a [u8], &'a [u8])>)
    ensures
        match halves {
            Some((before, after)) => split_at_first(text@, pattern@) == Some((before@, after@)),
            None => split_at_first(text@, pattern@) is None,
        },
{
    let end: usize = text.len();
    match find(text, pattern) {
        Some(at) => Some((&text[0..at], &text[at + pattern.len()..end])),
        None => None,
    }
}

} // verus!
