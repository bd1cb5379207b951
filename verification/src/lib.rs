//! The verified core of a speaker that turns text into sound with the help of
//! two collaborators: a synthesis process, which reads text on its input and
//! writes an audio file, and a playback engine, which plays that file.
//!
//! The core does no I/O. A driver owns the process, its pipes and the audio
//! device; it asks the core what to do and tells it what it saw:
//!
//! - [`request`] builds the command line of the process and frames a text as
//!   one line of its input;
//! - [`sentinel`] recognises the diagnostic line by which the process says
//!   that the audio file is complete;
//! - [`model`] is the engine as a state machine over plain values, and
//!   [`engine`] the value that a driver holds;
//! - [`stream`] relates the lines of the diagnostic stream to its bytes;
//! - [`laws`] states what holds of every run.

pub mod engine;
pub mod error;
pub mod laws;
pub mod model;
pub mod request;
pub mod sentinel;
pub mod stream;
