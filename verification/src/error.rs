//! The ways in which building, launching and following a child can fail.
use vstd::prelude::*;

verus! {

/// What went wrong.
#[derive(Debug, PartialEq, Eq, Clone, Copy, Structural)]
pub enum XError {
    /// An argument, a key or a value holds the terminator character.
    InvalidString,
    /// A pseudo-terminal pair could not be had.
    PtyUnavailable,
    /// The process could not be forked.
    ForkFailed,
    /// The status was asked for, but no streamer stands behind the handle.
    NoProducer,
    /// The streamer went away without delivering a status.
    ProducerGone,
    /// The wait ended on a state in which the child may still be running.
    NotTerminal,
}

} // verus!
