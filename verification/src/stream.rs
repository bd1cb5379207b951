//! The diagnostic stream as bytes, and why it is enough to look at it line by
//! line.

use vstd::prelude::*;
use crate::model::has_completion;
use crate::request::{terminator_free, LINE_TERMINATOR};
use crate::sentinel::{is_completion_line, occurs, occurs_at, sentinel};

verus! {

/// The stream was read up to and including each line terminator: every line
/// but the last ends with one. (The last may be cut short by the end of the
/// stream.)
pub open spec fn read_by_line(lines: Seq<Seq<u8>>) -> bool {
    forall|i: int|
        0 <= i < lines.len() - 1 ==> (#[trigger] lines[i]).len() > 0 && lines[i].last()
            == LINE_TERMINATOR
}

/// A needle without a line terminator cannot straddle the end of a line: if it
/// stands in `head + tail`, where `head` is empty or ends a line, then it
/// stands in `head` or in `tail`.
pub proof fn lemma_occurs_in_parts(head: Seq<u8>, tail: Seq<u8>, needle: Seq<u8>)
    requires
        terminator_free(needle),
        head.len() > 0 ==> head.last() == LINE_TERMINATOR,
    ensures
        occurs(head + tail, needle) <==> occurs(head, needle) || occurs(tail, needle),
{
    let whole = head + tail;
    let width = needle.len() as int;
    let cut = head.len() as int;
    if occurs(head, needle) {
        let at = choose|at: int| occurs_at(head, needle, at);
        assert(whole.subrange(at, at + width) =~= head.subrange(at, at + width));
        assert(occurs_at(whole, needle, at));
    }
    if occurs(tail, needle) {
        let at = choose|at: int| occurs_at(tail, needle, at);
        assert(whole.subrange(cut + at, cut + at + width) =~= tail.subrange(at, at + width));
        assert(occurs_at(whole, needle, cut + at));
    }
    if occurs(whole, needle) {
        let at = choose|at: int| occurs_at(whole, needle, at);
        let found = whole.subrange(at, at + width);
        if at + width <= cut {
            assert(head.subrange(at, at + width) =~= found);
            assert(occurs_at(head, needle, at));
        } else if at >= cut {
            assert(tail.subrange(at - cut, at - cut + width) =~= found);
            assert(occurs_at(tail, needle, at - cut));
        } else {
            assert(found[cut - 1 - at] == head[cut - 1]);
            assert(needle[cut - 1 - at] == LINE_TERMINATOR);
        }
    }
}

/// The completion phrase holds no line terminator.
pub proof fn lemma_sentinel_is_terminator_free()
    ensures
        terminator_free(sentinel()),
        sentinel().len() == 9,
{
}

/// Looking at each line is as good as looking at the whole stream: the phrase
/// stands among the bytes of a stream that was read by line exactly when one
/// of its lines signals completion.
pub proof fn lemma_detection_by_line(lines: Seq<Seq<u8>>)
    requires
        read_by_line(lines),
    ensures
        occurs(lines.flatten(), sentinel()) <==> has_completion(lines),
    decreases lines.len(),
{
    lemma_sentinel_is_terminator_free();
    if lines.len() == 0 {
        if occurs(lines.flatten(), sentinel()) {
            let at = choose|at: int| occurs_at(lines.flatten(), sentinel(), at);
            assert(false);
        }
    } else {
        let rest = lines.drop_first();
        assert forall|i: int| 0 <= i < rest.len() - 1 implies (#[trigger] rest[i]).len() > 0
            && rest[i].last() == LINE_TERMINATOR by {
            assert(rest[i] == lines[i + 1]);
        }
        lemma_detection_by_line(rest);
        if lines.len() == 1 {
            assert(rest.flatten() =~= Seq::<u8>::empty());
            assert(lines.flatten() =~= lines[0]);
        } else {
            assert(lines[0].len() > 0 && lines[0].last() == LINE_TERMINATOR);
            lemma_occurs_in_parts(lines[0], rest.flatten(), sentinel());
        }
        if has_completion(rest) {
            let at = choose|i: int| 0 <= i < rest.len() && is_completion_line(#[trigger] rest[i]);
            assert(is_completion_line(lines[at + 1]));
        }
        if has_completion(lines) {
            let at = choose|i: int|
                0 <= i < lines.len() && is_completion_line(#[trigger] lines[i]);
            if at > 0 {
                assert(is_completion_line(rest[at - 1]));
            }
        }
        if is_completion_line(lines[0]) {
            assert(has_completion(lines));
        }
    }
}

} // verus!
