//! The engine as a state machine over plain values.
//!
//! The driver performs the outside work (it starts the process, writes to its
//! input, reads its diagnostic lines, kills it, loads and plays the artifact)
//! and reports what happened; each transition below says how the engine
//! answers.

use vstd::prelude::*;
use crate::error::TtsError;
use crate::request::{framed, single_line};
use crate::sentinel::is_completion_line;

verus! {

/// Where the synthesis process stands, as far as the engine knows.
///
/// Before the process is started there is no engine at all.
#[derive(Clone, Copy, Debug, PartialEq, Eq, Structural)]
pub enum Phase {
    /// The process is alive and no request is in flight.
    Running,
    /// A request was written and its completion line has not been seen.
    AwaitingCompletion,
    /// The process was killed. Nothing leaves this phase.
    Terminated,
}

/// What one diagnostic line means for the request in flight.
#[derive(Clone, Copy, Debug, PartialEq, Eq, Structural)]
pub enum Progress {
    /// Ordinary chatter: keep reading.
    Pending,
    /// The completion line: the artifact is fully written, stop reading.
    Complete,
}

/// What the driver has to do to the process on shutdown.
#[derive(Clone, Copy, Debug, PartialEq, Eq, Structural)]
pub enum Shutdown {
    /// Kill the process, and ignore whether that worked.
    Kill,
    /// The process was killed before: do nothing.
    Nothing,
}

/// What the playback engine said when asked to load the artifact.
#[derive(Clone, Copy, Debug, PartialEq, Eq, Structural)]
pub enum LoadOutcome {
    /// The artifact was decoded into the playback buffer.
    Decoded,
    /// There is no file at the artifact's path.
    Missing,
    /// The file is empty, cannot be read or is no known audio encoding.
    Unreadable,
}

/// The engine's state: the phase of the process and whether the playback
/// buffer holds a decoded artifact.
pub struct EngineState {
    pub phase: Phase,
    pub loaded: bool,
}

impl EngineState {
    /// The state right after the process was started.
    pub open spec fn started() -> EngineState {
        EngineState { phase: Phase::Running, loaded: false }
    }

    /// A request may be submitted: the process runs and none is in flight.
    pub open spec fn idle(self) -> bool {
        self.phase == Phase::Running
    }

    /// A request is in flight.
    pub open spec fn waiting(self) -> bool {
        self.phase == Phase::AwaitingCompletion
    }

    /// Submitting `text`: the state that follows, and the bytes to write to
    /// the process's input.
    pub open spec fn submit(self, text: Seq<u8>) -> (EngineState, Seq<u8>) {
        (EngineState { phase: Phase::AwaitingCompletion, loaded: self.loaded }, framed(text))
    }

    /// One read from the diagnostic stream (`None` is its end) while a request
    /// is in flight.
    ///
    /// When the stream ends the request can never complete: the state stays
    /// as it is, so that no further request can be submitted and only a
    /// shutdown is left.
    pub open spec fn observe(self, line: Option<Seq<u8>>) -> (EngineState, Result<Progress, TtsError>) {
        match line {
            None => (self, Err(TtsError::StreamClosed)),
            Some(bytes) => if is_completion_line(bytes) {
                (EngineState { phase: Phase::Running, loaded: self.loaded }, Ok(Progress::Complete))
            } else {
                (self, Ok(Progress::Pending))
            },
        }
    }

    /// Shutdown, from any phase.
    pub open spec fn end(self) -> (EngineState, Shutdown) {
        (
            EngineState { phase: Phase::Terminated, loaded: self.loaded },
            if self.phase == Phase::Terminated {
                Shutdown::Nothing
            } else {
                Shutdown::Kill
            },
        )
    }

    /// The answer to a load of the artifact: play it, or fail. Each load
    /// stands alone: whatever the buffer held before is gone.
    pub open spec fn play(self, load: LoadOutcome) -> (EngineState, Result<(), TtsError>) {
        (
            EngineState { phase: self.phase, loaded: load == LoadOutcome::Decoded },
            if load == LoadOutcome::Decoded {
                Ok(())
            } else {
                Err(TtsError::DecodeError)
            },
        )
    }

    /// Reading the diagnostic stream to its completion line or its end.
    ///
    /// `lines` is all that the stream holds before it ends. The result is the
    /// number of lines read when the request completed.
    pub open spec fn await_completion(self, lines: Seq<Seq<u8>>) -> (EngineState, Result<nat, TtsError>)
        decreases lines.len(),
    {
        if lines.len() == 0 {
            (self.observe(None).0, Err(TtsError::StreamClosed))
        } else {
            let (next, progress) = self.observe(Some(lines[0]));
            if progress == Ok::<Progress, TtsError>(Progress::Complete) {
                (next, Ok(1))
            } else {
                let (last, rest) = next.await_completion(lines.drop_first());
                match rest {
                    Ok(read) => (last, Ok(read + 1)),
                    Err(e) => (last, Err(e)),
                }
            }
        }
    }

    /// One whole request: submit `text`, then read the stream.
    pub open spec fn generate(self, text: Seq<u8>, lines: Seq<Seq<u8>>) -> (EngineState, Result<nat, TtsError>)
        recommends
            self.idle(),
            single_line(text),
    {
        self.submit(text).0.await_completion(lines)
    }
}

/// Some line of the stream signals completion.
pub open spec fn has_completion(lines: Seq<Seq<u8>>) -> bool {
    exists|i: int| 0 <= i < lines.len() && is_completion_line(#[trigger] lines[i])
}

/// Line `at` is the first of the stream that signals completion.
pub open spec fn completes_at(lines: Seq<Seq<u8>>, at: int) -> bool {
    &&& 0 <= at < lines.len()
    &&& is_completion_line(lines[at])
    &&& forall|i: int| 0 <= i < at ==> !is_completion_line(#[trigger] lines[i])
}

} // verus!
