//! The session state machine: state-typed handles that the caller polls,
//! each offering only the operations legal in its state, every transition
//! consuming the old handle.
//!
//! The channel peeks are non-blocking and their outcome depends on the
//! worker thread, so each polling operation hands what it saw to a step
//! function whose contract pins the next state exactly, for every outcome.

use vstd::prelude::*;

use crate::link::{RecvOutcome, SendOutcome, channel_try_recv, channel_try_send, rendezvous_channel};
use crate::types::{Channel, Error, Event, Params, Request, Volt};
use crate::types::{clock_rate_hz, clock_rate_spec, resolve_v_ref, resolve_v_ref_spec};
use crate::worker::WorkerLink;
use crate::worker::{conversion_event_spec, decode_sample_spec, scale_sample_spec};

verus! {

/// The handle state shared by every session variant: the send side of the
/// request channel and the receive side of the event channel. Owned by
/// exactly one handle at a time and moved, never copied, across
/// transitions.
pub struct Inner {
    pub request_tx: std::sync::mpsc::SyncSender<Request>,
    pub event_rx: std::sync::mpsc::Receiver<Event>,
}

/// The caller-visible handle, one variant per protocol state.
pub enum Session {
    Initializing(Initializing),
    Ready(Ready),
    Probing(Probing),
}

/// Worker spawned, bus not yet confirmed ready.
pub struct Initializing {
    pub inner: Inner,
}

/// Bus confirmed initialized; no outstanding request.
pub struct Ready {
    pub inner: Inner,
}

/// Whether the outstanding request still has to be sent, or was sent and
/// awaits its reply. The channel asked for is carried until the send.
#[derive(Clone, Copy, PartialEq, Eq, Structural, Debug)]
pub enum ProbingState {
    Request { channel: Channel },
    WaitingReply,
}

/// A channel-read request is outstanding or about to be sent.
pub struct Probing {
    pub state: ProbingState,
    pub inner: Inner,
}

impl Session {
    /// Derives the bus parameters from the caller's configuration and
    /// creates the two rendezvous channels. The session starts in
    /// `Initializing`; the returned worker half carries the other two
    /// endpoints together with the clock rate and the resolved reference
    /// voltage for the thread that will own the bus.
    pub fn new(params: &Params) -> (r: (Session, WorkerLink))
        ensures
            r.0 matches Session::Initializing(_),
            r.1.clock_hz == clock_rate_spec(params.voltage_drain),
            r.1.v_ref == resolve_v_ref_spec(*params),
    {
        let hz = clock_rate_hz(params.voltage_drain);
        let v_ref = resolve_v_ref(params);
        let (request_tx, request_rx) = rendezvous_channel();
        let (event_tx, event_rx) = rendezvous_channel();
        let session = Session::Initializing(Initializing { inner: Inner { request_tx, event_rx } });
        let link = WorkerLink { request_rx, event_tx, clock_hz: hz, v_ref };
        (session, link)
    }
}

impl From<Initializing> for Session {
    fn from(state: Initializing) -> Session {
        Session::Initializing(state)
    }
}

impl vstd::std_specs::convert::FromSpecImpl<Initializing> for Session {
    open spec fn obeys_from_spec() -> bool {
        true
    }

    open spec fn from_spec(v: Initializing) -> Session {
        Session::Initializing(v)
    }
}

impl From<Ready> for Session {
    fn from(state: Ready) -> Session {
        Session::Ready(state)
    }
}

impl vstd::std_specs::convert::FromSpecImpl<Ready> for Session {
    open spec fn obeys_from_spec() -> bool {
        true
    }

    open spec fn from_spec(v: Ready) -> Session {
        Session::Ready(v)
    }
}

impl From<Probing> for Session {
    fn from(state: Probing) -> Session {
        Session::Probing(state)
    }
}

impl vstd::std_specs::convert::FromSpecImpl<Probing> for Session {
    open spec fn obeys_from_spec() -> bool {
        true
    }

    open spec fn from_spec(v: Probing) -> Session {
        Session::Probing(v)
    }
}

/// What polling an `Initializing` handle yields when no failure occurred:
/// the unchanged handle, or the `Ready` handle once the bus is confirmed.
pub enum InitializingOp {
    Idle(Initializing),
    Ready(Ready),
}

impl Initializing {
    /// What `probe` does for each possible look at the event channel.
    pub open spec fn probe_step_spec(self, outcome: RecvOutcome<Event>) -> Result<
        InitializingOp,
        Error,
    > {
        match outcome {
            RecvOutcome::Received(event) => match event {
                Event::SpiInitialized => Ok(InitializingOp::Ready(Ready { inner: self.inner })),
                Event::ChannelRead { .. } => Err(Error::SpiProtocol),
                Event::Error(error) => Err(error),
            },
            RecvOutcome::Empty => Ok(InitializingOp::Idle(self)),
            RecvOutcome::Disconnected => Err(Error::SpiThreadLost),
        }
    }

    /// Interprets one look at the event channel: readiness advances the
    /// session, an empty channel keeps the handle unchanged, a reported
    /// error or a lost worker ends the session, and a reading before
    /// readiness is the worker breaking the protocol.
    pub fn probe_step(self, outcome: RecvOutcome<Event>) -> (r: Result<InitializingOp, Error>)
        ensures
            r == self.probe_step_spec(outcome),
    {
        match outcome {
            RecvOutcome::Received(event) => match event {
                Event::SpiInitialized => Ok(InitializingOp::Ready(Ready { inner: self.inner })),
                Event::ChannelRead { .. } => Err(Error::SpiProtocol),
                Event::Error(error) => Err(error),
            },
            RecvOutcome::Empty => Ok(InitializingOp::Idle(self)),
            RecvOutcome::Disconnected => Err(Error::SpiThreadLost),
        }
    }

    /// Checks, without blocking, whether the worker has signalled
    /// readiness. What the channel holds depends on the worker, so the
    /// result is pinned only as a function of what was seen; whatever
    /// that was, an idle step returns the handle unchanged and a ready
    /// step keeps the same worker.
    pub fn probe(self) -> (r: Result<InitializingOp, Error>)
        ensures
            exists|outcome: RecvOutcome<Event>| r == #[trigger] self.probe_step_spec(outcome),
            r matches Ok(InitializingOp::Idle(same)) ==> same == self,
            r matches Ok(InitializingOp::Ready(ready)) ==> ready.inner == self.inner,
    {
        let ghost me = self;
        let outcome = channel_try_recv(&self.inner.event_rx);
        let ghost seen = outcome;
        let r = self.probe_step(outcome);
        proof {
            assert(r == me.probe_step_spec(seen));
        }
        r
    }
}

impl Ready {
    /// Remembers which channel was asked for and transitions to `Probing`.
    /// Unconditional and side-effect-free: the request itself is sent
    /// lazily on the first poll.
    pub fn probe_channel(self, channel: Channel) -> (r: Probing)
        ensures
            r == self.probe_channel_spec(channel),
            r.inner == self.inner,
    {
        Probing { state: ProbingState::Request { channel }, inner: self.inner }
    }

    pub open spec fn probe_channel_spec(self, channel: Channel) -> Probing {
        Probing { state: ProbingState::Request { channel }, inner: self.inner }
    }
}

/// What polling a `Probing` handle yields when no failure occurred: the
/// handle to poll again, or the reading together with a fresh `Ready`.
pub enum ProbingOp {
    Idle(Probing),
    Done { channel: Channel, value: Volt, ready: Ready },
}

/// Where the send phase of a poll left the session: proceed to look for
/// the reply in the same call, or yield to the caller.
pub enum SendPhase {
    Advance(Probing),
    Yield(ProbingOp),
}

impl Probing {
    /// What the send phase does for each possible outcome of the
    /// non-blocking send. With no send pending it just proceeds.
    pub open spec fn send_step_spec(self, outcome: SendOutcome) -> Result<SendPhase, Error> {
        match self.state {
            ProbingState::Request { channel } => match outcome {
                SendOutcome::Sent => Ok(
                    SendPhase::Advance(
                        Probing { state: ProbingState::WaitingReply, inner: self.inner },
                    ),
                ),
                SendOutcome::Full => Ok(SendPhase::Yield(ProbingOp::Idle(self))),
                SendOutcome::Disconnected => Err(Error::SpiThreadLost),
            },
            ProbingState::WaitingReply => Ok(SendPhase::Advance(self)),
        }
    }

    /// Advances the send phase: a delivered request awaits its reply, a
    /// full channel yields the unchanged handle for a later retry, and a
    /// lost worker ends the session.
    pub fn send_step(self, outcome: SendOutcome) -> (r: Result<SendPhase, Error>)
        ensures
            r == self.send_step_spec(outcome),
    {
        match self.state {
            ProbingState::Request { channel: _ } => match outcome {
                SendOutcome::Sent => Ok(
                    SendPhase::Advance(
                        Probing { state: ProbingState::WaitingReply, inner: self.inner },
                    ),
                ),
                SendOutcome::Full => Ok(SendPhase::Yield(ProbingOp::Idle(self))),
                SendOutcome::Disconnected => Err(Error::SpiThreadLost),
            },
            ProbingState::WaitingReply => Ok(SendPhase::Advance(self)),
        }
    }

    /// What the reply phase does for each possible look at the event
    /// channel.
    pub open spec fn reply_step_spec(self, outcome: RecvOutcome<Event>) -> Result<
        ProbingOp,
        Error,
    > {
        match outcome {
            RecvOutcome::Received(event) => match event {
                Event::SpiInitialized => Err(Error::SpiProtocol),
                Event::ChannelRead { channel, value } => Ok(
                    ProbingOp::Done { channel, value, ready: Ready { inner: self.inner } },
                ),
                Event::Error(error) => Err(error),
            },
            RecvOutcome::Empty => Ok(ProbingOp::Idle(self)),
            RecvOutcome::Disconnected => Err(Error::SpiThreadLost),
        }
    }

    /// Interprets one look at the event channel while a reply is awaited:
    /// a reading completes the probe and hands back a fresh `Ready` over
    /// the same worker, an empty channel keeps the handle unchanged, a
    /// reported error or a lost worker ends the session, and a readiness
    /// signal here is the worker breaking the protocol.
    pub fn reply_step(self, outcome: RecvOutcome<Event>) -> (r: Result<ProbingOp, Error>)
        ensures
            r == self.reply_step_spec(outcome),
    {
        match outcome {
            RecvOutcome::Received(event) => match event {
                Event::SpiInitialized => Err(Error::SpiProtocol),
                Event::ChannelRead { channel, value } => Ok(
                    ProbingOp::Done { channel, value, ready: Ready { inner: self.inner } },
                ),
                Event::Error(error) => Err(error),
            },
            RecvOutcome::Empty => Ok(ProbingOp::Idle(self)),
            RecvOutcome::Disconnected => Err(Error::SpiThreadLost),
        }
    }

    /// One poll, composed of the two phases: what it returns for the send
    /// outcome and the reply outcome that the channels gave.
    pub open spec fn poll_spec(
        self,
        sent: SendOutcome,
        reply: RecvOutcome<Event>,
    ) -> Result<ProbingOp, Error> {
        match self.send_step_spec(sent) {
            Ok(SendPhase::Advance(waiting)) => waiting.reply_step_spec(reply),
            Ok(SendPhase::Yield(op)) => Ok(op),
            Err(error) => Err(error),
        }
    }

    /// Advances the probe without blocking, doing up to two micro-steps
    /// in one call: if the request was not yet sent, it attempts the
    /// send, and on success immediately looks for the reply. What the
    /// channels do depends on the worker, so the result is pinned only
    /// as a function of the outcomes seen; whatever they were, an idle
    /// result keeps the same worker and never forgets an unsent request,
    /// and a completed probe hands back a `Ready` over the same worker.
    pub fn poll(self) -> (r: Result<ProbingOp, Error>)
        ensures
            exists|sent: SendOutcome, reply: RecvOutcome<Event>|
                r == #[trigger] self.poll_spec(sent, reply),
            r matches Ok(ProbingOp::Idle(p)) ==> p.inner == self.inner && (p.state == self.state
                || p.state == ProbingState::WaitingReply),
            r matches Ok(ProbingOp::Done { ready, .. }) ==> ready.inner == self.inner,
    {
        let ghost me = self;
        let sent: SendOutcome = match &self.state {
            ProbingState::Request { channel } => channel_try_send(
                &self.inner.request_tx,
                Request::ProbeChannel { channel: *channel },
            ),
            ProbingState::WaitingReply => SendOutcome::Sent,
        };
        let ghost sent_seen = sent;
        match self.send_step(sent) {
            Ok(SendPhase::Advance(waiting)) => {
                let reply = channel_try_recv(&waiting.inner.event_rx);
                let ghost reply_seen = reply;
                let r = waiting.reply_step(reply);
                proof {
                    assert(r == me.poll_spec(sent_seen, reply_seen));
                }
                r
            },
            Ok(SendPhase::Yield(op)) => {
                proof {
                    assert(Ok::<ProbingOp, Error>(op) == me.poll_spec(
                        sent_seen,
                        RecvOutcome::Empty,
                    ));
                }
                Ok(op)
            },
            Err(error) => {
                proof {
                    assert(Err::<ProbingOp, Error>(error) == me.poll_spec(
                        sent_seen,
                        RecvOutcome::Empty,
                    ));
                }
                Err(error)
            },
        }
    }
}

/// A session polled before the worker has reported readiness sees an empty
/// event channel, and then always returns the unchanged `Initializing`
/// handle: never a spurious `Ready`.
pub proof fn lemma_idle_until_ready(session: Initializing)
    ensures
        session.probe_step_spec(RecvOutcome::Empty) == Ok::<InitializingOp, Error>(
            InitializingOp::Idle(session),
        ),
{
}

/// A reading produced by the worker for a requested channel reports
/// exactly that channel back through the reply step, for every channel,
/// every raw response, and every reference voltage: the completed probe
/// carries the worker's channel, its scaled value, and a `Ready` over the
/// same worker.
pub proof fn lemma_probe_reports_requested_channel(
    probing: Probing,
    channel: Channel,
    response: Seq<u8>,
    v_ref: Volt,
)
    ensures
        probing.reply_step_spec(RecvOutcome::Received(conversion_event_spec(channel, response, v_ref)))
            == Ok::<ProbingOp, Error>(
            ProbingOp::Done {
                channel,
                value: scale_sample_spec(decode_sample_spec(response), v_ref),
                ready: Ready { inner: probing.inner },
            },
        ),
{
}

/// A lost worker is reported as exactly `SpiThreadLost`, in whichever
/// state the session observes the disconnection: polling for readiness,
/// sending the request, or awaiting the reply.
pub proof fn lemma_lost_worker_is_reported(
    initializing: Initializing,
    probing: Probing,
    channel: Channel,
)
    ensures
        initializing.probe_step_spec(RecvOutcome::Disconnected) == Err::<InitializingOp, Error>(
            Error::SpiThreadLost,
        ),
        (Probing { state: ProbingState::Request { channel }, inner: probing.inner }).send_step_spec(
            SendOutcome::Disconnected,
        ) == Err::<SendPhase, Error>(Error::SpiThreadLost),
        probing.reply_step_spec(RecvOutcome::Disconnected) == Err::<ProbingOp, Error>(
            Error::SpiThreadLost,
        ),
        probing.poll_spec(SendOutcome::Sent, RecvOutcome::Disconnected) == Err::<ProbingOp, Error>(
            Error::SpiThreadLost,
        ),
{
}

/// One full probe cycle hands back exactly the `Ready` handle it started
/// from, whatever channel was asked for and whatever reading came back:
/// a session never switches to another worker, so repeated probes across
/// the channels all run against the one worker it was built with.
pub proof fn lemma_one_worker_per_session(
    ready: Ready,
    channel: Channel,
    reported: Channel,
    value: Volt,
)
    ensures
        ({
            let waiting = Probing { state: ProbingState::WaitingReply, inner: ready.inner };
            &&& ready.probe_channel_spec(channel).send_step_spec(SendOutcome::Sent) == Ok::<
                SendPhase,
                Error,
            >(SendPhase::Advance(waiting))
            &&& waiting.reply_step_spec(
                RecvOutcome::Received(Event::ChannelRead { channel: reported, value }),
            ) == Ok::<ProbingOp, Error>(ProbingOp::Done { channel: reported, value, ready })
        }),
{
}

} // verus!
