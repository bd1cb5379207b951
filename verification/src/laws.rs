//! What holds of the engine whatever the driver feeds it.

use vstd::prelude::*;
use crate::error::TtsError;
use crate::model::{completes_at, has_completion, EngineState, LoadOutcome, Phase, Shutdown};
use crate::request::single_line;
use crate::sentinel::is_completion_line;

verus! {

/// Reading a stream succeeds exactly when one of its lines signals
/// completion. It then stops at the first such line, with the process ready
/// for the next request; otherwise it fails with `StreamClosed` and leaves the
/// engine as it was.
pub proof fn lemma_await_completion(state: EngineState, lines: Seq<Seq<u8>>)
    ensures
        state.await_completion(lines).1 is Ok <==> has_completion(lines),
        state.await_completion(lines).1 matches Ok(read) ==> {
            &&& completes_at(lines, read - 1)
            &&& state.await_completion(lines).0 == EngineState {
                phase: Phase::Running,
                loaded: state.loaded,
            }
        },
        state.await_completion(lines).1 matches Err(e) ==> {
            &&& e == TtsError::StreamClosed
            &&& state.await_completion(lines).0 == state
        },
    decreases lines.len(),
{
    if lines.len() > 0 {
        let rest = lines.drop_first();
        if is_completion_line(lines[0]) {
            assert(completes_at(lines, 0));
        } else {
            lemma_await_completion(state, rest);
            assert forall|i: int| 0 <= i < rest.len() implies rest[i] == lines[i + 1] by {}
            if has_completion(rest) {
                let at = choose|i: int| 0 <= i < rest.len() && is_completion_line(#[trigger] rest[i]);
                assert(is_completion_line(lines[at + 1]));
            }
            if has_completion(lines) {
                let at = choose|i: int| 0 <= i < lines.len() && is_completion_line(#[trigger] lines[i]);
                assert(is_completion_line(rest[at - 1]));
            }
            if let Ok(read) = state.await_completion(rest).1 {
                assert forall|i: int| 0 <= i < read implies !is_completion_line(
                    #[trigger] lines[i],
                ) by {
                    if i > 0 {
                        assert(!is_completion_line(rest[i - 1]));
                    }
                }
            }
        }
    }
}

/// A request succeeds if and only if a line that signals completion stands on
/// the diagnostic stream before its end, whatever text was submitted.
pub proof fn lemma_generate_succeeds_iff_completion(
    state: EngineState,
    text: Seq<u8>,
    lines: Seq<Seq<u8>>,
)
    requires
        state.idle(),
        single_line(text),
    ensures
        state.generate(text, lines).1 is Ok <==> has_completion(lines),
        !has_completion(lines) ==> state.generate(text, lines).1 == Err::<nat, TtsError>(
            TtsError::StreamClosed,
        ),
{
    lemma_await_completion(state.submit(text).0, lines);
}

/// A request does not return before the completion line: when it succeeds
/// after `read` lines, the last of them signals completion and none before it
/// does.
pub proof fn lemma_generate_stops_at_first_completion(
    state: EngineState,
    text: Seq<u8>,
    lines: Seq<Seq<u8>>,
)
    requires
        state.idle(),
        single_line(text),
    ensures
        state.generate(text, lines).1 matches Ok(read) ==> completes_at(lines, read - 1),
{
    lemma_await_completion(state.submit(text).0, lines);
}

/// Lines that do not signal completion change nothing but the count: with
/// such chatter in front of a stream, the request ends as it does without it,
/// `chatter.len()` lines later.
pub proof fn lemma_chatter_is_skipped(
    state: EngineState,
    chatter: Seq<Seq<u8>>,
    lines: Seq<Seq<u8>>,
)
    requires
        forall|i: int| 0 <= i < chatter.len() ==> !is_completion_line(#[trigger] chatter[i]),
    ensures
        state.await_completion(chatter + lines).0 == state.await_completion(lines).0,
        state.await_completion(chatter + lines).1 == match state.await_completion(lines).1 {
            Ok(read) => Ok::<nat, TtsError>(chatter.len() + read),
            Err(e) => Err::<nat, TtsError>(e),
        },
    decreases chatter.len(),
{
    if chatter.len() == 0 {
        assert(chatter + lines =~= lines);
    } else {
        let all = chatter + lines;
        assert(all[0] == chatter[0]);
        assert(all.drop_first() =~= chatter.drop_first() + lines);
        lemma_chatter_is_skipped(state, chatter.drop_first(), lines);
    }
}

/// Whether a request succeeds depends on nothing but the presence of a
/// completion line: two streams that agree on it give the same verdict.
pub proof fn lemma_verdict_depends_on_presence_only(
    state: EngineState,
    text: Seq<u8>,
    first: Seq<Seq<u8>>,
    second: Seq<Seq<u8>>,
)
    requires
        state.idle(),
        single_line(text),
        has_completion(first) == has_completion(second),
    ensures
        state.generate(text, first).1 is Ok <==> state.generate(text, second).1 is Ok,
        state.generate(text, first).0 == state.generate(text, second).0,
{
    lemma_await_completion(state.submit(text).0, first);
    lemma_await_completion(state.submit(text).0, second);
}

/// One request at a time: once a text is submitted no other can be, until a
/// line that signals completion is read. Chatter and the end of the stream
/// leave the request in flight.
pub proof fn lemma_one_request_in_flight(
    state: EngineState,
    text: Seq<u8>,
    line: Option<Seq<u8>>,
)
    requires
        state.idle(),
    ensures
        state.submit(text).0.waiting(),
        !state.submit(text).0.idle(),
        state.submit(text).0.observe(line).0.idle() <==> (line matches Some(bytes)
            && is_completion_line(bytes)),
        !state.submit(text).0.observe(line).0.idle() ==> state.submit(text).0.observe(line).0.waiting(),
{
}

/// Nothing leaves `Terminated`: no request can be submitted and none is in
/// flight, and shutdown and playback keep the phase.
pub proof fn lemma_terminated_is_absorbing(state: EngineState, load: LoadOutcome)
    requires
        state.phase == Phase::Terminated,
    ensures
        !state.idle(),
        !state.waiting(),
        state.end() == (state, Shutdown::Nothing),
        state.play(load).0.phase == Phase::Terminated,
{
}

/// A second shutdown in succession asks nothing of the driver and changes
/// nothing.
pub proof fn lemma_end_twice(state: EngineState)
    ensures
        state.end().0.end() == (state.end().0, Shutdown::Nothing),
{
}

/// Shutdown is open in every state, also after the stream closed because the
/// process died, and always ends in `Terminated`; it reports no failure, and
/// asks for the kill unless the process was killed before.
pub proof fn lemma_end_always_terminates(state: EngineState)
    ensures
        state.end().0.phase == Phase::Terminated,
        state.end().0.loaded == state.loaded,
        state.end().1 == Shutdown::Kill <==> state.phase != Phase::Terminated,
        state.observe(None).0.end() == state.end(),
{
}

/// After a request that succeeded, an artifact that the playback engine
/// decoded is played, and the buffer holds it.
pub proof fn lemma_play_after_generate(state: EngineState, text: Seq<u8>, lines: Seq<Seq<u8>>)
    requires
        state.idle(),
        single_line(text),
        has_completion(lines),
    ensures
        state.generate(text, lines).1 is Ok,
        state.generate(text, lines).0.play(LoadOutcome::Decoded).1 == Ok::<(), TtsError>(()),
        state.generate(text, lines).0.play(LoadOutcome::Decoded).0.loaded,
{
    lemma_await_completion(state.submit(text).0, lines);
}

/// Playback goes ahead exactly when the artifact was decoded. A missing or
/// unreadable artifact gives `DecodeError` in every state, leaves the buffer
/// empty and does not touch the process.
pub proof fn lemma_play_fails_unless_decoded(state: EngineState, load: LoadOutcome)
    ensures
        state.play(load).1 is Ok <==> load == LoadOutcome::Decoded,
        load != LoadOutcome::Decoded ==> state.play(load).1 == Err::<(), TtsError>(
            TtsError::DecodeError,
        ),
        state.play(load).0.loaded == (load == LoadOutcome::Decoded),
        state.play(load).0.phase == state.phase,
{
}

} // verus!
