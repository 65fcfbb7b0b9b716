//! The launching side's hold on a child: its process id, its two master
//! descriptors, and its termination status, which arrives once and is kept.
use vstd::prelude::*;
use crate::error::XError;
use crate::streamer::{
    stream_action, Delivery, Ready, StreamPhase, StreamerModel, XStreamer,
};
use crate::{WaitOutcome, XStatus};

verus! {

/// What a handle holds.
pub struct HandleModel {
    pub pid: i32,
    pub stdout: i32,
    pub stderr: i32,
    /// How many streamers were made of the handle.
    pub streamers: u64,
    /// The channel that a status is awaited on, if one is.
    pub channel: Option<u64>,
    /// The terminal status, once it has arrived.
    pub cached: Option<XStatus>,
}

/// What asking for the status gives, for what came out of the channel:
/// `None` where the channel closed with nothing sent.
pub open spec fn status_result(m: HandleModel, received: Option<Delivery>) -> Result<
    XStatus,
    XError,
> {
    match m.cached {
        Some(status) => Ok(status),
        None => match m.channel {
            None => Err(XError::NoProducer),
            Some(channel) => match received {
                None => Err(XError::ProducerGone),
                Some(d) => if d.channel != channel {
                    Err(XError::ProducerGone)
                } else if !d.status.terminal() {
                    Err(XError::NotTerminal)
                } else {
                    Ok(d.status)
                },
            },
        },
    }
}

/// The handle after its status was asked for.
pub open spec fn status_next(m: HandleModel, received: Option<Delivery>) -> HandleModel {
    match m.cached {
        Some(_) => m,
        None => match status_result(m, received) {
            Ok(status) => HandleModel { channel: None, cached: Some(status), ..m },
            Err(_) => HandleModel { channel: None, ..m },
        },
    }
}

/// The handle after each of a sequence of askings.
pub open spec fn status_after(m: HandleModel, received: Seq<Option<Delivery>>) -> HandleModel
    decreases received.len(),
{
    if received.len() == 0 {
        m
    } else {
        status_next(status_after(m, received.drop_last()), received.last())
    }
}

#[derive(Debug, PartialEq, Eq, Clone, Copy, Structural)]
enum StatusWrapper {
    Init(XStatus),
    Received(XStatus),
}

/// The launching side's hold on a child.
#[derive(Debug)]
pub struct XChildHandle {
    pid: i32,
    stdout: i32,
    stderr: i32,
    made: u64,
    rx: Option<u64>,
    status: StatusWrapper,
}

impl View for XChildHandle {
    type V = HandleModel;

    closed spec fn view(&self) -> HandleModel {
        HandleModel {
            pid: self.pid,
            stdout: self.stdout,
            stderr: self.stderr,
            streamers: self.made,
            channel: self.rx,
            cached: match self.status {
                StatusWrapper::Init(_) => None,
                StatusWrapper::Received(status) => Some(status),
            },
        }
    }
}

impl XChildHandle {
    /// A status that is kept is terminal.
    pub open spec fn wf(&self) -> bool {
        self@.cached is Some ==> self@.cached->Some_0.terminal()
    }

    /// A handle on the child with this process id, owning the two master
    /// descriptors. No streamer stands behind it yet and no status is known.
    pub fn new(pid: i32, stdout: i32, stderr: i32) -> (r: Result<Self, XError>)
        ensures
            r is Ok,
            r->Ok_0.wf(),
            r->Ok_0@ == (HandleModel {
                pid,
                stdout,
                stderr,
                streamers: 0,
                channel: None,
                cached: None,
            }),
    {
        Ok(
            XChildHandle {
                pid,
                stdout,
                stderr,
                made: 0,
                rx: None,
                status: StatusWrapper::Init(XStatus::Running),
            },
        )
    }

    /// The child's process id.
    pub fn pid(&self) -> (r: i32)
        ensures
            r == self@.pid,
    {
        self.pid
    }

    /// How many streamers were made of the handle.
    pub fn streamers_made(&self) -> (r: u64)
        ensures
            r == self@.streamers,
    {
        self.made
    }

    /// Makes the streamer for this child and opens a new channel from it to
    /// the handle. What an earlier channel might still bring is given up:
    /// only the status of the streamer made last is ever taken. A handle is
    /// meant to have one streamer; the caller runs one wait per child.
    pub fn streamer(&mut self) -> (r: XStreamer)
        requires
            old(self)@.streamers < u64::MAX,
        ensures
            final(self)@ == (HandleModel {
                streamers: (old(self)@.streamers + 1) as u64,
                channel: Some((old(self)@.streamers + 1) as u64),
                ..old(self)@
            }),
            r@ == (StreamerModel {
                pid: old(self)@.pid,
                stdout: old(self)@.stdout,
                stderr: old(self)@.stderr,
                channel: (old(self)@.streamers + 1) as u64,
                phase: StreamPhase::Merging,
            }),
    {
        let channel: u64 = self.made + 1;
        self.made = channel;
        self.rx = Some(channel);
        XStreamer::bind(self.pid, self.stdout, self.stderr, channel)
    }

    /// The channel that the caller has to await before asking for the
    /// status, if there is one: none once the status is kept, and none where
    /// no streamer was made.
    pub fn awaited_channel(&self) -> (r: Option<u64>)
        ensures
            r == (if self@.cached is Some {
                None
            } else {
                self@.channel
            }),
    {
        match self.status {
            StatusWrapper::Received(_) => None,
            StatusWrapper::Init(_) => self.rx,
        }
    }

    /// The child's termination status.
    ///
    /// Once a status is kept it is returned, whatever `received` holds.
    /// Before that the channel is used up: `received` is what came out of
    /// it, `None` where it closed with nothing sent. A terminal status that
    /// came on the handle's own channel is kept and returned.
    pub fn status(&mut self, received: Option<Delivery>) -> (r: Result<XStatus, XError>)
        ensures
            r == status_result(old(self)@, received),
            final(self)@ == status_next(old(self)@, received),
            old(self).wf() ==> final(self).wf(),
    {
        match self.status {
            StatusWrapper::Received(status) => Ok(status),
            StatusWrapper::Init(_) => {
                let receiver: Option<u64> = self.rx;
                self.rx = None;
                match receiver {
                    None => Err(XError::NoProducer),
                    Some(channel) => match received {
                        None => Err(XError::ProducerGone),
                        Some(d) => {
                            if d.channel != channel {
                                Err(XError::ProducerGone)
                            } else if !d.status.is_terminal() {
                                Err(XError::NotTerminal)
                            } else {
                                self.status = StatusWrapper::Received(d.status);
                                Ok(d.status)
                            }
                        },
                    },
                }
            },
        }
    }
}

/// Once the status was returned, asking again returns the same status
/// and changes nothing, whatever is handed in as received: the channel is
/// not read a second time.
pub proof fn lemma_status_idempotent(
    m: HandleModel,
    first: Option<Delivery>,
    second: Option<Delivery>,
)
    requires
        status_result(m, first) is Ok,
    ensures
        status_result(status_next(m, first), second) == status_result(m, first),
        status_next(status_next(m, first), second) == status_next(m, first),
        status_next(m, first).cached == Some(status_result(m, first)->Ok_0),
{
}

/// A status that is kept stays kept through every later asking.
pub proof fn lemma_cached_stays(m: HandleModel, received: Seq<Option<Delivery>>)
    requires
        m.cached is Some,
    ensures
        status_after(m, received) == m,
    decreases received.len(),
{
    if received.len() > 0 {
        lemma_cached_stays(m, received.drop_last());
    }
}

/// Over any sequence of askings, at most one status is ever observed: if
/// the asking at `i` returned a status, every later asking returns that
/// same status.
pub proof fn lemma_one_status_ever(
    m: HandleModel,
    received: Seq<Option<Delivery>>,
    i: int,
    j: int,
)
    requires
        0 <= i <= j < received.len(),
        status_result(status_after(m, received.take(i)), received[i]) is Ok,
    ensures
        status_result(status_after(m, received.take(j)), received[j]) == status_result(
            status_after(m, received.take(i)),
            received[i],
        ),
    decreases j - i,
{
    if i < j {
        lemma_one_status_ever(m, received, i, j - 1);
        let before = status_after(m, received.take(j - 1));
        assert(received.take(j).drop_last() =~= received.take(j - 1));
        assert(received.take(j).last() == received[j - 1]);
        assert(status_after(m, received.take(j)) == status_next(before, received[j - 1]));
        lemma_status_idempotent(before, received[j - 1], received[j]);
    }
}

/// Only a terminal status is ever returned by a handle that keeps none or
/// a terminal one.
pub proof fn lemma_status_is_terminal(m: HandleModel, received: Option<Delivery>)
    requires
        m.cached is Some ==> m.cached->Some_0.terminal(),
        status_result(m, received) is Ok,
    ensures
        status_result(m, received)->Ok_0.terminal(),
        !(status_result(m, received)->Ok_0 is Running),
{
}

/// What a streamer delivers is taken only by the handle that made it, and
/// only while that streamer is the one made last.
pub proof fn lemma_only_latest_streamer_heard(m: HandleModel, d: Delivery)
    requires
        m.cached is None,
        status_result(m, Some(d)) is Ok,
    ensures
        m.channel == Some(d.channel),
        status_result(m, Some(d)) == Ok::<XStatus, XError>(d.status),
{
}

/// What the streamer made last sends at the end of its sequence is what
/// the handle returns: the exit code of a child that exited, the signal of
/// a child that a signal ended. A child that a signal ended is never
/// reported as exited.
pub proof fn lemma_outcome_reaches_handle(
    m: HandleModel,
    s: StreamerModel,
    outcome: WaitOutcome,
    ready: Ready,
)
    requires
        m.cached is None,
        m.channel == Some(s.channel),
        s.phase == StreamPhase::Draining(outcome),
        stream_action(s, ready) is Finish,
    ensures
        ({
            let sent = stream_action(s, ready)->delivery;
            let got = status_result(m, Some(sent));
            &&& got is Ok
            &&& got->Ok_0 == sent.status
            &&& outcome is Exited ==> got->Ok_0 == XStatus::Exited(outcome->Exited_1)
            &&& outcome is Signaled ==> got->Ok_0 == XStatus::Signaled(outcome->Signaled_1)
            &&& outcome is Signaled ==> !(got->Ok_0 is Exited)
        }),
{
}

} // verus!
