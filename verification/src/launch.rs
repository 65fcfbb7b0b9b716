//! The order of the steps that launch a child on two pseudo-terminals.
//!
//! The caller opens the pseudo-terminals and forks; after each step it
//! reports what happened, and is told what to do next. One pseudo-terminal
//! pair serves the child's standard output and a second one its standard
//! error, so that each stream sees a terminal and the two stay apart.
use vstd::prelude::*;
use crate::child_handle::{HandleModel, XChildHandle};
use crate::error::XError;

verus! {

/// The descriptor that the child writes its standard output to.
pub const STDOUT_FILENO: i32 = 1;

/// The descriptor that the child writes its standard error to.
pub const STDERR_FILENO: i32 = 2;

/// The exit code of a child whose process image could not be replaced.
pub const EXEC_FAILURE_CODE: i32 = 1;

/// The two descriptors of one pseudo-terminal.
#[derive(Debug, PartialEq, Eq, Clone, Copy, Structural)]
pub struct PtyPair {
    pub master: i32,
    pub slave: i32,
}

/// How far a launch has come.
#[derive(Debug, PartialEq, Eq, Clone, Copy, Structural)]
pub enum LaunchState {
    /// Nothing was done yet.
    Start,
    /// The pseudo-terminal for standard output was asked for.
    StdoutPty,
    /// The one for standard output is open, the one for standard error was
    /// asked for.
    StderrPty(PtyPair),
    /// Both are open, for standard output and for standard error in this
    /// order, and the fork was asked for.
    Forking(PtyPair, PtyPair),
    /// In the child: the replacement of the process image was asked for.
    Replacing,
    /// The launch is over.
    Done,
}

/// What the caller reports.
#[derive(Debug, PartialEq, Eq, Clone, Copy, Structural)]
pub enum LaunchEvent {
    /// The launch is asked for.
    Begin,
    /// A pseudo-terminal pair was opened.
    PtyOpened(PtyPair),
    /// No pseudo-terminal pair could be had.
    PtyFailed,
    /// The fork succeeded; this is the launching process, and the child has
    /// this process id.
    ForkedParent(i32),
    /// The fork succeeded; this is the child.
    ForkedChild,
    /// The fork failed.
    ForkFailed,
    /// The process image could not be replaced.
    ExecFailed,
}

/// What the caller does next.
#[derive(Debug, PartialEq, Eq, Clone, Copy, Structural)]
pub enum LaunchAction {
    /// Open a pseudo-terminal pair and report it.
    OpenPty,
    /// Fork and report the outcome.
    Fork,
    /// In the launching process: close the two slave descriptors, which are
    /// the child's now, and hold the child by its process id and the two
    /// master descriptors.
    Adopt {
        child: i32,
        close_stdout_slave: i32,
        close_stderr_slave: i32,
        stdout_master: i32,
        stderr_master: i32,
    },
    /// In the child: close the two master descriptors, put each slave in the
    /// place of its target descriptor, then replace the process image with
    /// the one made ready before the fork. Nothing else may be done between
    /// the fork and the replacement.
    Replace {
        close_stdout_master: i32,
        close_stderr_master: i32,
        stdout_slave: i32,
        stdout_target: i32,
        stderr_slave: i32,
        stderr_target: i32,
    },
    /// Close both descriptors of each pair named and give up with this
    /// error. No process was made.
    Abort { error: XError, release_stdout: Option<PtyPair>, release_stderr: Option<PtyPair> },
    /// In the child: end the process with this code, at once.
    Exit(i32),
    /// The report does not fit the state; nothing changes.
    Refuse,
}

/// The action that a report leads to.
pub open spec fn launch_action(state: LaunchState, event: LaunchEvent) -> LaunchAction {
    match (state, event) {
        (LaunchState::Start, LaunchEvent::Begin) => LaunchAction::OpenPty,
        (LaunchState::StdoutPty, LaunchEvent::PtyOpened(_)) => LaunchAction::OpenPty,
        (LaunchState::StdoutPty, LaunchEvent::PtyFailed) => LaunchAction::Abort {
            error: XError::PtyUnavailable,
            release_stdout: None,
            release_stderr: None,
        },
        (LaunchState::StderrPty(_), LaunchEvent::PtyOpened(_)) => LaunchAction::Fork,
        (LaunchState::StderrPty(out), LaunchEvent::PtyFailed) => LaunchAction::Abort {
            error: XError::PtyUnavailable,
            release_stdout: Some(out),
            release_stderr: None,
        },
        (LaunchState::Forking(out, err), LaunchEvent::ForkedParent(child)) => LaunchAction::Adopt {
            child,
            close_stdout_slave: out.slave,
            close_stderr_slave: err.slave,
            stdout_master: out.master,
            stderr_master: err.master,
        },
        (LaunchState::Forking(out, err), LaunchEvent::ForkedChild) => LaunchAction::Replace {
            close_stdout_master: out.master,
            close_stderr_master: err.master,
            stdout_slave: out.slave,
            stdout_target: STDOUT_FILENO,
            stderr_slave: err.slave,
            stderr_target: STDERR_FILENO,
        },
        (LaunchState::Forking(out, err), LaunchEvent::ForkFailed) => LaunchAction::Abort {
            error: XError::ForkFailed,
            release_stdout: Some(out),
            release_stderr: Some(err),
        },
        (LaunchState::Replacing, LaunchEvent::ExecFailed) => LaunchAction::Exit(
            EXEC_FAILURE_CODE,
        ),
        _ => LaunchAction::Refuse,
    }
}

/// The state that a report leads to.
pub open spec fn launch_next(state: LaunchState, event: LaunchEvent) -> LaunchState {
    match (state, event) {
        (LaunchState::Start, LaunchEvent::Begin) => LaunchState::StdoutPty,
        (LaunchState::StdoutPty, LaunchEvent::PtyOpened(out)) => LaunchState::StderrPty(out),
        (LaunchState::StdoutPty, LaunchEvent::PtyFailed) => LaunchState::Done,
        (LaunchState::StderrPty(out), LaunchEvent::PtyOpened(err)) => LaunchState::Forking(
            out,
            err,
        ),
        (LaunchState::StderrPty(_), LaunchEvent::PtyFailed) => LaunchState::Done,
        (LaunchState::Forking(_, _), LaunchEvent::ForkedParent(_)) => LaunchState::Done,
        (LaunchState::Forking(_, _), LaunchEvent::ForkedChild) => LaunchState::Replacing,
        (LaunchState::Forking(_, _), LaunchEvent::ForkFailed) => LaunchState::Done,
        (LaunchState::Replacing, LaunchEvent::ExecFailed) => LaunchState::Done,
        _ => state,
    }
}

/// The descriptors that the launching process holds open for the launch.
pub open spec fn held(state: LaunchState) -> Seq<i32> {
    match state {
        LaunchState::StderrPty(out) => seq![out.master, out.slave],
        LaunchState::Forking(out, err) => seq![out.master, out.slave, err.master, err.slave],
        _ => Seq::empty(),
    }
}

/// The descriptors that a report brings.
pub open spec fn opened(event: LaunchEvent) -> Seq<i32> {
    match event {
        LaunchEvent::PtyOpened(pair) => seq![pair.master, pair.slave],
        _ => Seq::empty(),
    }
}

/// The descriptors of a pair that is to be released.
pub open spec fn pair_descriptors(pair: Option<PtyPair>) -> Seq<i32> {
    match pair {
        Some(p) => seq![p.master, p.slave],
        None => Seq::empty(),
    }
}

/// The descriptors that an action has the launching process close.
pub open spec fn released(action: LaunchAction) -> Seq<i32> {
    match action {
        LaunchAction::Abort { release_stdout, release_stderr, .. } => pair_descriptors(
            release_stdout,
        ) + pair_descriptors(release_stderr),
        LaunchAction::Adopt { close_stdout_slave, close_stderr_slave, .. } => seq![
            close_stdout_slave,
            close_stderr_slave,
        ],
        _ => Seq::empty(),
    }
}

/// The descriptors that an action passes on to the child's handle.
pub open spec fn adopted(action: LaunchAction) -> Seq<i32> {
    match action {
        LaunchAction::Adopt { stdout_master, stderr_master, .. } => seq![
            stdout_master,
            stderr_master,
        ],
        _ => Seq::empty(),
    }
}

/// Reads `libc::STDOUT_FILENO`, the number under which a process finds its
/// standard output. The contract claims that it is 1.
#[verifier::external_body]
fn stdout_fileno() -> (r: i32)
    ensures
        r == STDOUT_FILENO,
{
    libc::STDOUT_FILENO
}

/// Reads `libc::STDERR_FILENO`, the number under which a process finds its
/// standard error. The contract claims that it is 2.
#[verifier::external_body]
fn stderr_fileno() -> (r: i32)
    ensures
        r == STDERR_FILENO,
{
    libc::STDERR_FILENO
}

/// Tells how the launch moves on a report, as [`launch_next`] and
/// [`launch_action`] say.
pub fn launch_step(state: LaunchState, event: LaunchEvent) -> (r: (LaunchState, LaunchAction))
    ensures
        r.0 == launch_next(state, event),
        r.1 == launch_action(state, event),
{
    match state {
        LaunchState::Start => match event {
            LaunchEvent::Begin => (LaunchState::StdoutPty, LaunchAction::OpenPty),
            _ => (state, LaunchAction::Refuse),
        },
        LaunchState::StdoutPty => match event {
            LaunchEvent::PtyOpened(out) => (LaunchState::StderrPty(out), LaunchAction::OpenPty),
            LaunchEvent::PtyFailed => (
                LaunchState::Done,
                LaunchAction::Abort {
                    error: XError::PtyUnavailable,
                    release_stdout: None,
                    release_stderr: None,
                },
            ),
            _ => (state, LaunchAction::Refuse),
        },
        LaunchState::StderrPty(out) => match event {
            LaunchEvent::PtyOpened(err) => (LaunchState::Forking(out, err), LaunchAction::Fork),
            LaunchEvent::PtyFailed => (
                LaunchState::Done,
                LaunchAction::Abort {
                    error: XError::PtyUnavailable,
                    release_stdout: Some(out),
                    release_stderr: None,
                },
            ),
            _ => (state, LaunchAction::Refuse),
        },
        LaunchState::Forking(out, err) => match event {
            LaunchEvent::ForkedParent(child) => (
                LaunchState::Done,
                LaunchAction::Adopt {
                    child,
                    close_stdout_slave: out.slave,
                    close_stderr_slave: err.slave,
                    stdout_master: out.master,
                    stderr_master: err.master,
                },
            ),
            LaunchEvent::ForkedChild => (
                LaunchState::Replacing,
                LaunchAction::Replace {
                    close_stdout_master: out.master,
                    close_stderr_master: err.master,
                    stdout_slave: out.slave,
                    stdout_target: stdout_fileno(),
                    stderr_slave: err.slave,
                    stderr_target: stderr_fileno(),
                },
            ),
            LaunchEvent::ForkFailed => (
                LaunchState::Done,
                LaunchAction::Abort {
                    error: XError::ForkFailed,
                    release_stdout: Some(out),
                    release_stderr: Some(err),
                },
            ),
            _ => (state, LaunchAction::Refuse),
        },
        LaunchState::Replacing => match event {
            LaunchEvent::ExecFailed => (LaunchState::Done, LaunchAction::Exit(EXEC_FAILURE_CODE)),
            _ => (state, LaunchAction::Refuse),
        },
        LaunchState::Done => (state, LaunchAction::Refuse),
    }
}

impl LaunchAction {
    /// The handle on the child that the action adopts, if it adopts one.
    pub fn handle(&self) -> (r: Option<XChildHandle>)
        ensures
            r is Some <==> self is Adopt,
            r is Some ==> r->Some_0.wf() && r->Some_0@ == (HandleModel {
                pid: self->child,
                stdout: self->stdout_master,
                stderr: self->stderr_master,
                streamers: 0,
                channel: None,
                cached: None,
            }),
    {
        match self {
            LaunchAction::Adopt { child, stdout_master, stderr_master, .. } => {
                match XChildHandle::new(*child, *stdout_master, *stderr_master) {
                    Ok(handle) => Some(handle),
                    Err(_) => None,
                }
            },
            _ => None,
        }
    }
}

/// A launch that is given up leaves nothing behind: it is given up only on
/// a report that no pseudo-terminal or no process could be had, so no
/// process was made; every descriptor held for the launch is released, in
/// the order in which it was opened; and the launch is over.
pub proof fn lemma_abort_leaves_nothing(state: LaunchState, event: LaunchEvent)
    requires
        launch_action(state, event) is Abort,
    ensures
        event is PtyFailed || event is ForkFailed,
        released(launch_action(state, event)) =~= held(state),
        adopted(launch_action(state, event)) =~= Seq::empty(),
        launch_next(state, event) == LaunchState::Done,
        held(launch_next(state, event)) =~= Seq::empty(),
{
}

/// A child is adopted only on the report of a fork that succeeded, under the
/// process id that the fork gave. The handle then owns the two master
/// descriptors, the two slave descriptors are closed, and nothing else was
/// held: the launching process keeps no descriptor of the launch to itself.
pub proof fn lemma_adopt_follows_fork(state: LaunchState, event: LaunchEvent)
    requires
        launch_action(state, event) is Adopt,
    ensures
        event is ForkedParent,
        launch_action(state, event)->child == event->ForkedParent_0,
        state is Forking,
        adopted(launch_action(state, event)) =~= seq![
            state->Forking_0.master,
            state->Forking_1.master,
        ],
        released(launch_action(state, event)) =~= seq![
            state->Forking_0.slave,
            state->Forking_1.slave,
        ],
        launch_next(state, event) == LaunchState::Done,
        held(launch_next(state, event)) =~= Seq::empty(),
{
}

/// In the launching process, every descriptor that is held or comes with a
/// report is afterwards still held, released, or passed to the handle: there
/// are as many before as after.
pub proof fn lemma_descriptors_accounted(state: LaunchState, event: LaunchEvent)
    requires
        !(launch_action(state, event) is Refuse),
        !(event is ForkedChild),
        !(state is Replacing),
    ensures
        (held(state) + opened(event)).to_multiset() =~= (held(launch_next(state, event))
            + released(launch_action(state, event)) + adopted(
            launch_action(state, event),
        )).to_multiset(),
{
    let before = held(state) + opened(event);
    let action = launch_action(state, event);
    let after = held(launch_next(state, event)) + released(action) + adopted(action);
    match (state, event) {
        (LaunchState::Forking(out, err), LaunchEvent::ForkedParent(child)) => {
            let a = seq![out.master, out.slave, err.master, err.slave];
            let b = seq![out.slave, err.slave, out.master, err.master];
            assert(before =~= a);
            assert(after =~= b);
            lemma_four(out.master, out.slave, err.master, err.slave);
        },
        _ => {
            assert(before =~= after);
        },
    }
}

/// Four descriptors in the two orders in which a launch names them.
proof fn lemma_four(a: i32, b: i32, c: i32, d: i32)
    ensures
        seq![a, b, c, d].to_multiset() =~= seq![b, d, a, c].to_multiset(),
{
    broadcast use vstd::seq_lib::group_to_multiset_ensures;

    let e = Seq::<i32>::empty();
    assert(seq![a, b, c, d] =~= e.push(a).push(b).push(c).push(d));
    assert(seq![b, d, a, c] =~= e.push(b).push(d).push(a).push(c));
}

/// Once a launch is over, every further report is refused and changes
/// nothing: a launch adopts at most one child.
pub proof fn lemma_done_is_final(event: LaunchEvent)
    ensures
        launch_action(LaunchState::Done, event) is Refuse,
        launch_next(LaunchState::Done, event) == LaunchState::Done,
{
}

/// The state of a launch after a sequence of reports.
pub open spec fn launch_after(state: LaunchState, events: Seq<LaunchEvent>) -> LaunchState
    decreases events.len(),
{
    if events.len() == 0 {
        state
    } else {
        launch_next(launch_after(state, events.drop_last()), events.last())
    }
}

/// The pair that a launch holds while it asks for the second one is a pair
/// that was reported open.
pub proof fn lemma_first_pair_was_opened(events: Seq<LaunchEvent>, out: PtyPair)
    requires
        launch_after(LaunchState::Start, events) == LaunchState::StderrPty(out),
    ensures
        exists|i: int| 0 <= i < events.len() && #[trigger] events[i] == LaunchEvent::PtyOpened(out),
    decreases events.len(),
{
    if events.len() > 0 {
        let front = events.drop_last();
        if launch_after(LaunchState::Start, front) == LaunchState::StderrPty(out) {
            lemma_first_pair_was_opened(front, out);
            let i = choose|i: int|
                0 <= i < front.len() && #[trigger] front[i] == LaunchEvent::PtyOpened(out);
            assert(events[i] == front[i]);
        } else {
            assert(events[events.len() - 1] == LaunchEvent::PtyOpened(out));
        }
    }
}

/// The two pairs that a launch forks with, and so the descriptors that the
/// child's handle comes to own, are pairs that were reported open, the one
/// for standard output before the one for standard error.
pub proof fn lemma_forks_with_opened_pairs(events: Seq<LaunchEvent>, out: PtyPair, err: PtyPair)
    requires
        launch_after(LaunchState::Start, events) == LaunchState::Forking(out, err),
    ensures
        exists|i: int, j: int|
            0 <= i < j < events.len() && #[trigger] events[i] == LaunchEvent::PtyOpened(out)
                && #[trigger] events[j] == LaunchEvent::PtyOpened(err),
    decreases events.len(),
{
    if events.len() > 0 {
        let front = events.drop_last();
        if launch_after(LaunchState::Start, front) == LaunchState::Forking(out, err) {
            lemma_forks_with_opened_pairs(front, out, err);
            let (i, j) = choose|i: int, j: int|
                0 <= i < j < front.len() && #[trigger] front[i] == LaunchEvent::PtyOpened(out)
                    && #[trigger] front[j] == LaunchEvent::PtyOpened(err);
            assert(events[i] == front[i] && events[j] == front[j]);
        } else {
            assert(launch_after(LaunchState::Start, front) == LaunchState::StderrPty(out));
            lemma_first_pair_was_opened(front, out);
            let i = choose|i: int|
                0 <= i < front.len() && #[trigger] front[i] == LaunchEvent::PtyOpened(out);
            assert(events[i] == front[i]);
            assert(events[events.len() - 1] == LaunchEvent::PtyOpened(err));
        }
    }
}

} // verus!
