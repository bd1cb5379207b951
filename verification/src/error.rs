use vstd::prelude::*;

verus! {

/// Why a request to the engine failed.
///
/// Every failure is final for the call that reports it: nothing is retried.
#[derive(Clone, Copy, Debug, PartialEq, Eq, Structural)]
pub enum TtsError {
    /// The synthesis process could not be started.
    SpawnError,
    /// The diagnostic stream ended before the completion signal was seen.
    StreamClosed,
    /// The audio artifact is missing, unreadable or not a known encoding.
    DecodeError,
}

} // verus!
