//! The engine: the state machine of the model, as a value that the driver
//! holds beside the process and the playback engine.

use vstd::prelude::*;
use vstd::string::*;
use crate::error::TtsError;
use crate::laws::lemma_await_completion;
use crate::model::{completes_at, has_completion, EngineState, LoadOutcome, Phase, Progress, Shutdown};
use crate::request::{frame_request, one_line_text};
use crate::sentinel::{is_completion_line, signals_completion};

verus! {

/// The controller of one synthesis process and of the playback buffer.
///
/// It does no I/O. The driver tells it what it is about to do or what it has
/// seen, and acts on the answer.
#[derive(Debug)]
pub struct Piper {
    phase: Phase,
    loaded: bool,
}

impl View for Piper {
    type V = EngineState;

    closed spec fn view(&self) -> EngineState {
        EngineState { phase: self.phase, loaded: self.loaded }
    }
}

/// What a read from the diagnostic stream holds: the bytes of a line, or
/// nothing at the end of the stream.
pub open spec fn read_view(line: Option<&[u8]>) -> Option<Seq<u8>> {
    match line {
        Some(bytes) => Some(bytes@),
        None => None,
    }
}

/// The lines of a recorded diagnostic stream.
pub open spec fn transcript(lines: &Vec<Vec<u8>>) -> Seq<Seq<u8>> {
    Seq::new(lines@.len(), |i: int| lines@[i]@)
}

impl Piper {
    /// The engine for a process that the driver has just tried to start.
    ///
    /// `spawned` says whether the process came up. If it did not, there is no
    /// engine.
    pub fn start(spawned: bool) -> (engine: Result<Piper, TtsError>)
        ensures
            spawned ==> engine is Ok && engine->Ok_0@ == EngineState::started(),
            !spawned ==> engine == Err::<Piper, TtsError>(TtsError::SpawnError),
    {
        if spawned {
            Ok(Piper { phase: Phase::Running, loaded: false })
        } else {
            Err(TtsError::SpawnError)
        }
    }

    /// The phase of the process.
    pub fn phase(&self) -> (phase: Phase)
        ensures
            phase == self@.phase,
    {
        self.phase
    }

    /// Whether the playback buffer holds a decoded artifact.
    pub fn is_loaded(&self) -> (loaded: bool)
        ensures
            loaded == self@.loaded,
    {
        self.loaded
    }

    /// Begins a request. The driver writes the returned bytes to the
    /// process's input, flushes, and then reads the diagnostic stream line by
    /// line, handing each read to [`Piper::observe`].
    ///
    /// Only one request can be in flight, and `text` has to fit on one line.
    pub fn generate_audio(&mut self, text: &str) -> (frame: Vec<u8>)
        requires
            old(self)@.idle(),
            one_line_text(text@),
        ensures
            (final(self)@, frame@) == old(self)@.submit(text.spec_bytes()),
    {
        self.phase = Phase::AwaitingCompletion;
        frame_request(text)
    }

    /// Takes one read from the diagnostic stream: a line, or `None` at the end
    /// of the stream. On `Ok(Progress::Pending)` the driver logs the line and
    /// reads on; on `Ok(Progress::Complete)` it logs the line and stops
    /// reading: the artifact is complete.
    pub fn observe(&mut self, line: Option<&[u8]>) -> (progress: Result<Progress, TtsError>)
        requires
            old(self)@.waiting(),
        ensures
            (final(self)@, progress) == old(self)@.observe(read_view(line)),
    {
        match line {
            None => Err(TtsError::StreamClosed),
            Some(bytes) => {
                if signals_completion(bytes) {
                    self.phase = Phase::Running;
                    Ok(Progress::Complete)
                } else {
                    Ok(Progress::Pending)
                }
            },
        }
    }

    /// Runs the request in flight against a recorded diagnostic stream:
    /// `lines` is everything that the stream holds before it ends.
    ///
    /// Returns the number of lines read up to and including the first that
    /// signals completion, or `StreamClosed` if none does.
    pub fn await_completion(&mut self, lines: &Vec<Vec<u8>>) -> (read: Result<usize, TtsError>)
        requires
            old(self)@.waiting(),
        ensures
            read is Ok <==> has_completion(transcript(lines)),
            read matches Ok(count) ==> {
                &&& completes_at(transcript(lines), count - 1)
                &&& final(self)@ == EngineState { phase: Phase::Running, loaded: old(self)@.loaded }
            },
            read matches Err(e) ==> e == TtsError::StreamClosed && final(self)@ == old(self)@,
            final(self)@ == old(self)@.await_completion(transcript(lines)).0,
            match read {
                Ok(count) => Ok::<nat, TtsError>(count as nat),
                Err(e) => Err::<nat, TtsError>(e),
            } == old(self)@.await_completion(transcript(lines)).1,
    {
        let total: usize = lines.len();
        let mut at: usize = 0;
        loop
            invariant
                at <= total,
                total == lines@.len(),
                self@ == old(self)@,
                self@.waiting(),
                forall|i: int| 0 <= i < at ==> !is_completion_line(#[trigger] transcript(lines)[i]),
            decreases total - at,
        {
            let event = if at < total {
                Some(lines[at].as_slice())
            } else {
                None
            };
            match self.observe(event) {
                Ok(Progress::Complete) => {
                    proof {
                        assert(is_completion_line(transcript(lines)[at as int]));
                        lemma_await_completion(old(self)@, transcript(lines));
                    }
                    return Ok(at + 1);
                },
                Ok(Progress::Pending) => {
                    at += 1;
                },
                Err(e) => {
                    proof {
                        lemma_await_completion(old(self)@, transcript(lines));
                    }
                    return Err(e);
                },
            }
        }
    }

    /// Shuts the engine down. The driver kills the process if told so and
    /// ignores the outcome of the kill. Never fails, in any phase.
    pub fn end(&mut self) -> (action: Shutdown)
        ensures
            (final(self)@, action) == old(self)@.end(),
    {
        let action = match self.phase {
            Phase::Terminated => Shutdown::Nothing,
            _ => Shutdown::Kill,
        };
        self.phase = Phase::Terminated;
        action
    }

    /// Decides what follows a load of the artifact into the playback buffer:
    /// on `Ok` the driver submits the buffer for playback and returns without
    /// waiting for the sound to end.
    ///
    /// The engine does not check that a request has completed before.
    pub fn play(&mut self, load: LoadOutcome) -> (verdict: Result<(), TtsError>)
        ensures
            (final(self)@, verdict) == old(self)@.play(load),
    {
        match load {
            LoadOutcome::Decoded => {
                self.loaded = true;
                Ok(())
            },
            _ => {
                self.loaded = false;
                Err(TtsError::DecodeError)
            },
        }
    }
}

} // verus!
