//! Launching a program with its standard output and standard error each on a
//! pseudo-terminal of its own, and following it to its end.
//!
//! The crate holds the decisions of that life cycle: the validated command
//! description, the order of the launch steps, the priority merge of the two
//! output streams with the exit notification, and the one-shot delivery of
//! the termination status. The system calls themselves are made by the
//! caller, who reports what happened and performs what is decided here.
use vstd::prelude::*;

pub mod text;
pub mod error;
pub mod env_var;
pub mod builder;
pub mod launch;
pub mod command;
pub mod child_handle;
pub mod streamer;

pub use builder::XCommandBuilder;
pub use child_handle::XChildHandle;
pub use command::XCommand;
pub use env_var::EnvVar;
pub use error::XError;
pub use streamer::XStreamer;

verus! {

/// Which of the two captured streams a line came from.
#[derive(Debug, PartialEq, Eq, Hash, Clone, Copy, Structural)]
pub enum StdioType {
    Stdout,
    Stderr,
}

/// How far the child has come: still running, or ended by an exit code or by
/// a signal. The signal is held by its number.
#[derive(Debug, PartialEq, Eq, Clone, Copy, Structural)]
pub enum XStatus {
    Exited(i32),
    Signaled(i32),
    Running,
}

/// What waiting for a child reported, as plain values: process ids, exit
/// codes and signal numbers.
#[derive(Debug, PartialEq, Eq, Clone, Copy, Structural)]
pub enum WaitOutcome {
    /// The process ended by itself with this exit code.
    Exited(i32, i32),
    /// The process was ended by this signal; the flag tells of a core dump.
    Signaled(i32, i32, bool),
    /// The process was stopped by this signal.
    Stopped(i32, i32),
    /// A traced process stopped on this signal with this event.
    PtraceEvent(i32, i32, i32),
    /// A traced process stopped at a system call.
    PtraceSyscall(i32),
    /// A stopped process went on.
    Continued(i32),
    /// Nothing has changed yet.
    StillAlive,
}

/// The termination status that a wait outcome stands for.
pub open spec fn status_of(outcome: WaitOutcome) -> XStatus {
    match outcome {
        WaitOutcome::Exited(_, code) => XStatus::Exited(code),
        WaitOutcome::Signaled(_, signal, _) => XStatus::Signaled(signal),
        WaitOutcome::Stopped(_, signal) => XStatus::Signaled(signal),
        _ => XStatus::Running,
    }
}

impl XStatus {
    /// A status is terminal once the child can no longer be running.
    pub open spec fn terminal(self) -> bool {
        !(self is Running)
    }

    /// Tells whether the status is terminal.
    pub fn is_terminal(&self) -> (r: bool)
        ensures
            r == self.terminal(),
    {
        match self {
            XStatus::Running => false,
            _ => true,
        }
    }
}

impl From<WaitOutcome> for XStatus {
    fn from(input: WaitOutcome) -> (r: XStatus) {
        match input {
            WaitOutcome::Exited(_, code) => XStatus::Exited(code),
            WaitOutcome::Signaled(_, signal, _) | WaitOutcome::Stopped(_, signal) => {
                XStatus::Signaled(signal)
            },
            _ => XStatus::Running,
        }
    }
}

impl vstd::std_specs::convert::FromSpecImpl<WaitOutcome> for XStatus {
    open spec fn obeys_from_spec() -> bool {
        true
    }

    open spec fn from_spec(v: WaitOutcome) -> XStatus {
        status_of(v)
    }
}

/// A child that a signal ended is never reported as having exited, and one
/// that exited is reported with its own code.
pub proof fn lemma_status_of_kinds(outcome: WaitOutcome)
    ensures
        outcome is Signaled ==> status_of(outcome) == XStatus::Signaled(outcome->Signaled_1),
        outcome is Stopped ==> status_of(outcome) == XStatus::Signaled(outcome->Stopped_1),
        outcome is Exited ==> status_of(outcome) == XStatus::Exited(outcome->Exited_1),
        status_of(outcome) is Exited <==> outcome is Exited,
        status_of(outcome).terminal() <==> (outcome is Exited || outcome is Signaled
            || outcome is Stopped),
{
}

} // verus!
