//! The merge of the child's two output streams with the notification of its
//! exit.
//!
//! The caller reads the two master descriptors and runs the wait for the
//! child on a thread that may block. Each time something may be ready it
//! reports what is, and [`XStreamer::stream`] decides what happens next.
//! Output always goes before the exit: a line that is ready is handed on
//! even when the exit is already known, and the status leaves only after
//! both streams have ended.
use vstd::prelude::*;
use crate::error::XError;
use crate::{status_of, StdioType, WaitOutcome, XStatus};

verus! {

/// A termination status on its way to the handle, marked with the channel
/// that it travels on.
#[derive(Debug, PartialEq, Eq, Clone, Copy, Structural)]
pub struct Delivery {
    pub channel: u64,
    pub status: XStatus,
}

/// Where the merge stands.
#[derive(Debug, PartialEq, Eq, Clone, Copy, Structural)]
pub enum StreamPhase {
    /// The child is not known to have ended.
    Merging,
    /// The child has ended with this outcome; output may still be buffered.
    Draining(WaitOutcome),
    /// The descriptors are closed and the sequence has ended.
    Finished,
}

/// What the two line readers have to offer.
#[derive(Debug, PartialEq, Eq, Clone)]
pub enum OutputReady {
    /// A line of one of the streams.
    Line(StdioType, String),
    /// Nothing yet; more may come.
    Pending,
    /// Both streams have ended.
    Ended,
}

/// What is ready at one poll: the readers' offer, and the wait outcome if
/// the wait has returned.
#[derive(Debug, PartialEq, Eq, Clone)]
pub struct Ready {
    pub output: OutputReady,
    pub exit: Option<WaitOutcome>,
}

/// What the caller does after a poll.
#[derive(Debug, PartialEq, Eq, Clone)]
pub enum StreamAction {
    /// Hand this line to the consumer. A wait outcome reported with it has
    /// not been taken: report it again.
    Yield(StdioType, String),
    /// Suspend until a line or the exit is ready.
    Wait,
    /// The exit is known: go on reading until both streams have ended.
    Drain,
    /// Close both master descriptors, send the status, end the sequence.
    Finish { close_stdout: i32, close_stderr: i32, delivery: Delivery },
    /// Close both master descriptors and end the sequence without a status.
    Fail { close_stdout: i32, close_stderr: i32, error: XError },
    /// The sequence has ended before.
    End,
}

/// What a streamer holds.
pub struct StreamerModel {
    pub pid: i32,
    pub stdout: i32,
    pub stderr: i32,
    pub channel: u64,
    pub phase: StreamPhase,
}

/// The end of the sequence once the wait outcome is known and both streams
/// have ended: the status is delivered if it is terminal.
pub open spec fn closing_action(m: StreamerModel, outcome: WaitOutcome) -> StreamAction {
    if status_of(outcome).terminal() {
        StreamAction::Finish {
            close_stdout: m.stdout,
            close_stderr: m.stderr,
            delivery: Delivery { channel: m.channel, status: status_of(outcome) },
        }
    } else {
        StreamAction::Fail {
            close_stdout: m.stdout,
            close_stderr: m.stderr,
            error: XError::NotTerminal,
        }
    }
}

/// The action that a poll leads to.
pub open spec fn stream_action(m: StreamerModel, ready: Ready) -> StreamAction {
    match m.phase {
        StreamPhase::Finished => StreamAction::End,
        StreamPhase::Merging => match ready.output {
            OutputReady::Line(origin, line) => StreamAction::Yield(origin, line),
            OutputReady::Pending => match ready.exit {
                Some(_) => StreamAction::Drain,
                None => StreamAction::Wait,
            },
            OutputReady::Ended => match ready.exit {
                Some(outcome) => closing_action(m, outcome),
                None => StreamAction::Wait,
            },
        },
        StreamPhase::Draining(outcome) => match ready.output {
            OutputReady::Line(origin, line) => StreamAction::Yield(origin, line),
            OutputReady::Pending => StreamAction::Drain,
            OutputReady::Ended => closing_action(m, outcome),
        },
    }
}

/// The phase that a poll leads to.
pub open spec fn stream_phase(phase: StreamPhase, ready: Ready) -> StreamPhase {
    match phase {
        StreamPhase::Finished => StreamPhase::Finished,
        StreamPhase::Merging => match ready.output {
            OutputReady::Line(_, _) => StreamPhase::Merging,
            OutputReady::Pending => match ready.exit {
                Some(outcome) => StreamPhase::Draining(outcome),
                None => StreamPhase::Merging,
            },
            OutputReady::Ended => match ready.exit {
                Some(_) => StreamPhase::Finished,
                None => StreamPhase::Merging,
            },
        },
        StreamPhase::Draining(outcome) => match ready.output {
            OutputReady::Ended => StreamPhase::Finished,
            _ => StreamPhase::Draining(outcome),
        },
    }
}

/// The streamer after a poll.
pub open spec fn stream_next(m: StreamerModel, ready: Ready) -> StreamerModel {
    StreamerModel { phase: stream_phase(m.phase, ready), ..m }
}

/// The merge of a child's two output streams, bound to the child's process
/// id, its two master descriptors and the channel to its handle.
#[derive(Debug)]
pub struct XStreamer {
    pid: i32,
    stdout: i32,
    stderr: i32,
    channel: u64,
    phase: StreamPhase,
}

impl View for XStreamer {
    type V = StreamerModel;

    closed spec fn view(&self) -> StreamerModel {
        StreamerModel {
            pid: self.pid,
            stdout: self.stdout,
            stderr: self.stderr,
            channel: self.channel,
            phase: self.phase,
        }
    }
}

impl XStreamer {
    /// A streamer at the start of the merge.
    pub(crate) fn bind(pid: i32, stdout: i32, stderr: i32, channel: u64) -> (r: XStreamer)
        ensures
            r@ == (StreamerModel { pid, stdout, stderr, channel, phase: StreamPhase::Merging }),
    {
        XStreamer { pid, stdout, stderr, channel, phase: StreamPhase::Merging }
    }

    /// The id of the process to wait for.
    pub fn pid(&self) -> (r: i32)
        ensures
            r == self@.pid,
    {
        self.pid
    }

    /// The master descriptor of the child's standard output.
    pub fn stdout(&self) -> (r: i32)
        ensures
            r == self@.stdout,
    {
        self.stdout
    }

    /// The master descriptor of the child's standard error.
    pub fn stderr(&self) -> (r: i32)
        ensures
            r == self@.stderr,
    {
        self.stderr
    }

    /// The channel on which the status will leave.
    pub fn channel(&self) -> (r: u64)
        ensures
            r == self@.channel,
    {
        self.channel
    }

    /// Where the merge stands.
    pub fn phase(&self) -> (r: StreamPhase)
        ensures
            r == self@.phase,
    {
        self.phase
    }

    /// The end of the sequence for a known wait outcome.
    fn send_status(&mut self, outcome: WaitOutcome) -> (r: StreamAction)
        ensures
            r == closing_action(old(self)@, outcome),
            final(self)@ == (StreamerModel { phase: StreamPhase::Finished, ..old(self)@ }),
    {
        self.phase = StreamPhase::Finished;
        let status: XStatus = XStatus::from(outcome);
        if status.is_terminal() {
            StreamAction::Finish {
                close_stdout: self.stdout,
                close_stderr: self.stderr,
                delivery: Delivery { channel: self.channel, status },
            }
        } else {
            StreamAction::Fail {
                close_stdout: self.stdout,
                close_stderr: self.stderr,
                error: XError::NotTerminal,
            }
        }
    }

    /// Takes what is ready at one poll and decides what happens next.
    ///
    /// A line that is ready is always handed on first. The exit is taken
    /// only when no line is ready, and the status leaves only when both
    /// streams have ended.
    pub fn stream(&mut self, ready: Ready) -> (r: StreamAction)
        ensures
            r == stream_action(old(self)@, ready),
            final(self)@ == stream_next(old(self)@, ready),
    {
        let Ready { output, exit } = ready;
        match self.phase {
            StreamPhase::Finished => StreamAction::End,
            StreamPhase::Merging => match output {
                OutputReady::Line(origin, line) => StreamAction::Yield(origin, line),
                OutputReady::Pending => match exit {
                    Some(outcome) => {
                        self.phase = StreamPhase::Draining(outcome);
                        StreamAction::Drain
                    },
                    None => StreamAction::Wait,
                },
                OutputReady::Ended => match exit {
                    Some(outcome) => self.send_status(outcome),
                    None => StreamAction::Wait,
                },
            },
            StreamPhase::Draining(outcome) => match output {
                OutputReady::Line(origin, line) => StreamAction::Yield(origin, line),
                OutputReady::Pending => StreamAction::Drain,
                OutputReady::Ended => self.send_status(outcome),
            },
        }
    }
}

/// The line that a poll presents, if it presents one.
pub open spec fn line_of(ready: Ready) -> Seq<(StdioType, String)> {
    match ready.output {
        OutputReady::Line(origin, line) => seq![(origin, line)],
        _ => Seq::empty(),
    }
}

/// The line that an action hands to the consumer, if it hands one.
pub open spec fn yield_of(action: StreamAction) -> Seq<(StdioType, String)> {
    match action {
        StreamAction::Yield(origin, line) => seq![(origin, line)],
        _ => Seq::empty(),
    }
}

/// The streamer after a sequence of polls.
pub open spec fn stream_after(m: StreamerModel, polls: Seq<Ready>) -> StreamerModel
    decreases polls.len(),
{
    if polls.len() == 0 {
        m
    } else {
        stream_next(stream_after(m, polls.drop_last()), polls.last())
    }
}

/// The lines that a sequence of polls presents, in their order.
pub open spec fn presented(polls: Seq<Ready>) -> Seq<(StdioType, String)>
    decreases polls.len(),
{
    if polls.len() == 0 {
        Seq::empty()
    } else {
        presented(polls.drop_last()) + line_of(polls.last())
    }
}

/// The lines that the consumer is handed over a sequence of polls, in
/// their order.
pub open spec fn yielded(m: StreamerModel, polls: Seq<Ready>) -> Seq<(StdioType, String)>
    decreases polls.len(),
{
    if polls.len() == 0 {
        Seq::empty()
    } else {
        yielded(m, polls.drop_last()) + yield_of(
            stream_action(stream_after(m, polls.drop_last()), polls.last()),
        )
    }
}

/// While the sequence has not ended, a line that is ready is handed on as it
/// is, tagged with its origin, and a wait outcome reported with it is left
/// untaken: output goes before the exit.
pub proof fn lemma_output_before_exit(m: StreamerModel, ready: Ready)
    requires
        m.phase != StreamPhase::Finished,
        ready.output is Line,
    ensures
        stream_action(m, ready) == StreamAction::Yield(ready.output->Line_0, ready.output->Line_1),
        stream_next(m, ready) == m,
{
}

/// The status leaves only at a poll at which both streams have ended, on
/// the streamer's own channel, and it is the terminal status of the wait
/// outcome: the one reported at that poll, or the one taken before.
pub proof fn lemma_status_after_output(m: StreamerModel, ready: Ready)
    requires
        stream_action(m, ready) is Finish,
    ensures
        ready.output is Ended,
        stream_next(m, ready).phase == StreamPhase::Finished,
        stream_action(m, ready)->delivery.channel == m.channel,
        stream_action(m, ready)->delivery.status.terminal(),
        m.phase is Draining ==> stream_action(m, ready)->delivery.status == status_of(
            m.phase->Draining_0,
        ),
        m.phase is Merging ==> ready.exit is Some && stream_action(m, ready)->delivery.status
            == status_of(ready.exit->Some_0),
        stream_action(m, ready) == (StreamAction::Finish {
            close_stdout: m.stdout,
            close_stderr: m.stderr,
            delivery: stream_action(m, ready)->delivery,
        }),
{
}

/// A sequence that has ended stays ended and does nothing more: the
/// descriptors are closed once and the status is sent once.
pub proof fn lemma_finished_is_final(m: StreamerModel, ready: Ready)
    requires
        m.phase == StreamPhase::Finished,
    ensures
        stream_action(m, ready) == StreamAction::End,
        stream_next(m, ready) == m,
{
}

/// A streamer that has not ended after some polls had not ended before
/// any of them.
pub proof fn lemma_not_finished_before(m: StreamerModel, polls: Seq<Ready>, k: int)
    requires
        0 <= k <= polls.len(),
        stream_after(m, polls).phase != StreamPhase::Finished,
    ensures
        stream_after(m, polls.take(k)).phase != StreamPhase::Finished,
    decreases polls.len() - k,
{
    if k == polls.len() {
        assert(polls.take(k) =~= polls);
    } else {
        lemma_not_finished_before(m, polls, k + 1);
        assert(polls.take(k + 1).drop_last() =~= polls.take(k));
    }
}

/// No line is lost: over any sequence of polls up to and including the one
/// at which the sequence ends, the consumer is handed exactly the lines
/// that were presented, each with its origin, in the order in which they
/// were presented.
pub proof fn lemma_every_line_yielded(m: StreamerModel, polls: Seq<Ready>)
    requires
        polls.len() > 0 ==> stream_after(m, polls.drop_last()).phase != StreamPhase::Finished,
        polls.len() == 0 ==> m.phase != StreamPhase::Finished,
    ensures
        yielded(m, polls) == presented(polls),
    decreases polls.len(),
{
    if polls.len() > 0 {
        let front = polls.drop_last();
        if front.len() > 0 {
            lemma_not_finished_before(m, front, front.len() - 1);
            assert(front.take(front.len() - 1) =~= front.drop_last());
        }
        lemma_every_line_yielded(m, front);
        let at = stream_after(m, front);
        if polls.last().output is Line {
            lemma_output_before_exit(at, polls.last());
        }
    }
}

/// The exit is taken at the first poll that reports it with no line
/// ready: from then on the streamer only drains, or has ended.
pub proof fn lemma_exit_taken_without_line(m: StreamerModel, ready: Ready)
    requires
        m.phase == StreamPhase::Merging,
        ready.exit is Some,
        !(ready.output is Line),
    ensures
        ready.output is Pending ==> stream_next(m, ready).phase == StreamPhase::Draining(
            ready.exit->Some_0,
        ),
        ready.output is Ended ==> stream_next(m, ready).phase == StreamPhase::Finished
            && stream_action(m, ready) == closing_action(m, ready.exit->Some_0),
{
}

/// The wait outcome that a draining streamer holds is one that a poll
/// reported: the streamer makes up no exit of its own.
pub proof fn lemma_drained_exit_was_reported(
    m: StreamerModel,
    polls: Seq<Ready>,
    outcome: WaitOutcome,
)
    requires
        m.phase == StreamPhase::Merging,
        stream_after(m, polls).phase == StreamPhase::Draining(outcome),
    ensures
        exists|i: int| 0 <= i < polls.len() && (#[trigger] polls[i]).exit == Some(outcome),
    decreases polls.len(),
{
    if polls.len() > 0 {
        let front = polls.drop_last();
        let at = stream_after(m, front);
        if at.phase == StreamPhase::Draining(outcome) {
            lemma_drained_exit_was_reported(m, front, outcome);
            let i = choose|i: int| 0 <= i < front.len() && (#[trigger] front[i]).exit == Some(outcome);
            assert(polls[i] == front[i]);
        } else {
            assert(at.phase == StreamPhase::Merging);
            assert(polls[polls.len() - 1].exit == Some(outcome));
        }
    }
}

} // verus!
