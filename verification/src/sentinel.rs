//! Completion detection: the synthesis process announces that the audio
//! artifact is fully written by printing a diagnostic line that contains a
//! fixed phrase.

use vstd::prelude::*;

verus! {

/// The bytes of the phrase `Real-time`.
pub const SENTINEL: [u8; 9] = [0x52, 0x65, 0x61, 0x6c, 0x2d, 0x74, 0x69, 0x6d, 0x65];

/// The completion phrase as a sequence of bytes.
pub open spec fn sentinel() -> Seq<u8> {
    SENTINEL@
}

/// `needle` stands in `hay` at offset `at`.
pub open spec fn occurs_at(hay: Seq<u8>, needle: Seq<u8>, at: int) -> bool {
    &&& 0 <= at
    &&& at + needle.len() <= hay.len()
    &&& hay.subrange(at, at + needle.len()) == needle
}

/// `needle` stands somewhere in `hay`.
pub open spec fn occurs(hay: Seq<u8>, needle: Seq<u8>) -> bool {
    exists|at: int| occurs_at(hay, needle, at)
}

/// A diagnostic line signals completion when the phrase stands anywhere in it.
pub open spec fn is_completion_line(line: Seq<u8>) -> bool {
    occurs(line, sentinel())
}

/// Tells whether `needle` stands in `hay` at offset `at`.
pub fn matches_at(hay: &[u8], needle: &[u8], at: usize) -> (found: bool)
    ensures
        found == occurs_at(hay@, needle@, at as int),
{
    let len: usize = hay.len();
    let width: usize = needle.len();
    if at > len || width > len - at {
        return false;
    }
    let mut k: usize = 0;
    while k < width
        invariant
            k <= width,
            width == needle@.len(),
            len == hay@.len(),
            at + width <= len,
            forall|j: int| 0 <= j < k ==> hay@[at + j] == needle@[j],
        decreases width - k,
    {
        if hay[at + k] != needle[k] {
            assert(hay@.subrange(at as int, at + width)[k as int] != needle@[k as int]);
            return false;
        }
        k += 1;
    }
    assert(hay@.subrange(at as int, at + width) =~= needle@);
    true
}

/// Finds the first offset at which `needle` stands in `hay`.
///
/// The empty needle stands at offset 0 of every sequence.
pub fn find(hay: &[u8], needle: &[u8]) -> (first: Option<usize>)
    ensures
        first is Some <==> occurs(hay@, needle@),
        first matches Some(at) ==> occurs_at(hay@, needle@, at as int) && forall|j: int|
            0 <= j < at ==> !occurs_at(hay@, needle@, j),
{
    let len: usize = hay.len();
    let width: usize = needle.len();
    if width == 0 {
        assert(occurs_at(hay@, needle@, 0)) by {
            assert(hay@.subrange(0, 0) =~= needle@);
        }
        return Some(0);
    }
    let mut at: usize = 0;
    while at <= len && width <= len - at
        invariant
            len == hay@.len(),
            width == needle@.len(),
            width > 0,
            forall|j: int| 0 <= j < at ==> !occurs_at(hay@, needle@, j),
        decreases len - at,
    {
        if matches_at(hay, needle, at) {
            return Some(at);
        }
        at += 1;
    }
    None
}

/// Tells whether a diagnostic line carries the completion phrase.
pub fn signals_completion(line: &[u8]) -> (done: bool)
    ensures
        done == is_completion_line(line@),
{
    find(line, SENTINEL.as_slice()).is_some()
}

} // verus!
