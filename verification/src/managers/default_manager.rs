//! The heartbeat: a ping that belongs to no session, and the wait for the
//! pong that answers it.
//!
//! Unlike the wait for a response, this wait has a deadline. The deadline is
//! fixed, and the wait is told the time by whoever drives it.

use crate::background::processor::{RavalinkIPC, Received};
use crate::helpers::{fresh_correlation_id, is_correlation_id};
use crate::protocol::Message;
use vstd::prelude::*;

verus! {

/// How long a ping waits for its pong, in milliseconds.
pub const HEARTBEAT_DEADLINE_MS: u64 = 5000;

/// How a heartbeat can fail.
#[derive(Clone, Copy, PartialEq, Eq, Structural, Debug)]
pub enum DefaultError {
    /// Kept for callers that match on it. Nothing here returns it.
    InitializationError,
    /// The process-wide endpoint closed, or the wait fell too far behind on it.
    FailedToReceiveIPCResponse,
    /// The internal path did not take the ping.
    FailedToSendIPCRequest,
    /// There is no process-wide endpoint to send the ping through.
    NoGlobalTX,
    /// No pong came before the deadline.
    TimedOut,
}

/// Where heartbeats start from.
#[derive(Debug)]
pub struct DefaultObject;

/// A wait for the pong that answers one ping.
#[derive(Debug)]
pub struct PingWait {
    ping_id: String,
    open: bool,
}

/// What can happen to a waiting ping.
#[derive(Clone, Debug, PartialEq, Eq)]
pub enum PingEvent<E> {
    /// The subscription to the process-wide endpoint brought something.
    Endpoint(Received<E>),
    /// Nothing came yet, and so much time has passed since the ping was sent.
    Clock { elapsed_ms: u64 },
}

/// What an event does to a waiting ping.
#[derive(Clone, Debug, PartialEq, Eq)]
pub enum PingStep {
    /// Nothing: the wait goes on.
    Pending,
    /// The wait has its pong, and is over.
    Resolved(Message),
    /// The wait has failed, and is over.
    Failed(DefaultError),
    /// The wait was over before the event came.
    Finished,
}

/// A ping on its way out: the envelope to put on the internal path, and the
/// wait for its pong.
#[derive(Debug)]
pub struct PendingPing<E> {
    pub envelope: RavalinkIPC<E>,
    pub wait: PingWait,
}

impl PingWait {
    /// The id of the ping the wait is for.
    pub closed spec fn ping_id(&self) -> Seq<char> {
        self.ping_id@
    }

    /// Whether the wait is still pending.
    pub closed spec fn pending(&self) -> bool {
        self.open
    }

    /// Whether `message` is the pong this wait is for: a pong that bears the
    /// ping's id.
    pub open spec fn accepts(&self, message: Message) -> bool {
        message matches Message::Pong { id } && id@ == self.ping_id()
    }

    /// What handing the ping to the internal path does to the wait. A ping
    /// that was not taken fails the wait at once.
    pub open spec fn step_sent(&self, taken: bool) -> PingStep {
        if !self.pending() {
            PingStep::Finished
        } else if taken {
            PingStep::Pending
        } else {
            PingStep::Failed(DefaultError::FailedToSendIPCRequest)
        }
    }

    /// What an event does to the wait. The pong the wait is for resolves it,
    /// to that pong; any other envelope, a pong with another id among them,
    /// is passed over. A closed or lagging endpoint fails it. The clock fails
    /// it with [`DefaultError::TimedOut`] once the deadline is reached, and
    /// not before.
    pub open spec fn step<E>(&self, event: PingEvent<E>) -> PingStep {
        if !self.pending() {
            PingStep::Finished
        } else {
            match event {
                PingEvent::Endpoint(Received::Envelope(ipc)) => if self.accepts(ipc.message()) {
                    PingStep::Resolved(ipc.message())
                } else {
                    PingStep::Pending
                },
                PingEvent::Endpoint(Received::Closed) => PingStep::Failed(
                    DefaultError::FailedToReceiveIPCResponse,
                ),
                PingEvent::Endpoint(Received::Lagged) => PingStep::Failed(
                    DefaultError::FailedToReceiveIPCResponse,
                ),
                PingEvent::Clock { elapsed_ms } => if elapsed_ms >= HEARTBEAT_DEADLINE_MS {
                    PingStep::Failed(DefaultError::TimedOut)
                } else {
                    PingStep::Pending
                },
            }
        }
    }

    /// The wait after it was told whether the internal path took the ping:
    /// as it was, and pending only if it goes on.
    pub closed spec fn after_sent(&self, taken: bool) -> PingWait {
        PingWait { ping_id: self.ping_id, open: self.step_sent(taken) is Pending }
    }

    /// The wait after an event: as it was, and pending only if it goes on.
    pub closed spec fn after<E>(&self, event: PingEvent<E>) -> PingWait {
        PingWait { ping_id: self.ping_id, open: self.step(event) is Pending }
    }

    /// The wait after a run of events, taken in order.
    pub open spec fn after_all<E>(&self, events: Seq<PingEvent<E>>) -> PingWait
        decreases events.len(),
    {
        if events.len() == 0 {
            *self
        } else {
            self.after_all(events.drop_last()).after(events.last())
        }
    }

    /// How a run of events, taken in order, ends the wait: the first step
    /// that is not [`PingStep::Pending`], or that one if every step is.
    pub open spec fn outcome<E>(&self, events: Seq<PingEvent<E>>) -> PingStep
        decreases events.len(),
    {
        if events.len() == 0 {
            PingStep::Pending
        } else {
            let before = self.outcome(events.drop_last());
            if before is Pending {
                self.after_all(events.drop_last()).step(events.last())
            } else {
                before
            }
        }
    }

    /// Whether `event` brings neither the pong the wait is for nor word that
    /// the endpoint has failed.
    pub open spec fn brings_no_answer<E>(&self, event: PingEvent<E>) -> bool {
        match event {
            PingEvent::Endpoint(Received::Envelope(ipc)) => !self.accepts(ipc.message()),
            PingEvent::Endpoint(_) => false,
            PingEvent::Clock { .. } => true,
        }
    }

    /// An event leaves the id the wait is for as it was, and the wait pending
    /// exactly when the step is [`PingStep::Pending`].
    pub proof fn after_keeps_what_the_wait_is_for<E>(self, event: PingEvent<E>)
        ensures
            self.after(event).ping_id() == self.ping_id(),
            self.after(event).pending() == (self.step(event) is Pending),
    {
    }

    /// An event resolves a wait only if the wait is pending and the event
    /// brings a pong that bears the id the wait was made with. The wait is
    /// then resolved to that very pong.
    pub proof fn resolved_only_by_own_pong<E>(self, event: PingEvent<E>)
        requires
            self.step(event) is Resolved,
        ensures
            self.pending(),
            ({
                &&& event matches PingEvent::Endpoint(Received::Envelope(ipc))
                &&& self.step(event) == PingStep::Resolved(ipc.message())
                &&& ipc.message() matches Message::Pong { id }
                &&& id@ == self.ping_id()
            }),
    {
    }

    /// A run of events that bring no answer leaves a pending wait either
    /// pending or timed out, and for the same ping.
    proof fn no_answer_means_pending_or_timed_out<E>(self, events: Seq<PingEvent<E>>)
        requires
            self.pending(),
            forall|i: int| 0 <= i < events.len() ==> self.brings_no_answer(#[trigger] events[i]),
        ensures
            self.outcome(events) is Pending || self.outcome(events) == PingStep::Failed(
                DefaultError::TimedOut,
            ),
            self.after_all(events).pending() == (self.outcome(events) is Pending),
            self.after_all(events).ping_id() == self.ping_id(),
        decreases events.len(),
    {
        if events.len() > 0 {
            self.no_answer_means_pending_or_timed_out(events.drop_last());
            assert(self.brings_no_answer(events.last()));
        }
    }

    /// A ping never waits past its deadline. If the events that come before
    /// the clock reads the deadline, or later, bring neither the pong the
    /// wait is for nor word that the endpoint has failed, the wait has ended
    /// by then, and with [`DefaultError::TimedOut`].
    pub proof fn times_out_at_the_deadline<E>(self, events: Seq<PingEvent<E>>, elapsed_ms: u64)
        requires
            self.pending(),
            forall|i: int| 0 <= i < events.len() ==> self.brings_no_answer(#[trigger] events[i]),
            elapsed_ms >= HEARTBEAT_DEADLINE_MS,
        ensures
            self.outcome(events.push(PingEvent::Clock { elapsed_ms })) == PingStep::Failed(
                DefaultError::TimedOut,
            ),
            !self.after_all(events.push(PingEvent::Clock { elapsed_ms })).pending(),
    {
        let run = events.push(PingEvent::Clock { elapsed_ms });
        assert(run.drop_last() =~= events);
        self.no_answer_means_pending_or_timed_out(events);
    }

    /// A pending wait for the pong that bears `ping_id`.
    pub fn new(ping_id: String) -> (wait: PingWait)
        ensures
            wait.ping_id() == ping_id@,
            wait.pending(),
    {
        PingWait { ping_id, open: true }
    }

    /// Whether the wait is still pending.
    pub fn is_pending(&self) -> (pending: bool)
        ensures
            pending == self.pending(),
    {
        self.open
    }

    /// Tells the wait whether the internal path took the ping.
    pub fn on_sent(&mut self, taken: bool) -> (step: PingStep)
        ensures
            step == old(self).step_sent(taken),
            *final(self) == old(self).after_sent(taken),
            final(self).ping_id() == old(self).ping_id(),
            final(self).pending() == (step is Pending),
    {
        if !self.open {
            PingStep::Finished
        } else if taken {
            PingStep::Pending
        } else {
            self.open = false;
            PingStep::Failed(DefaultError::FailedToSendIPCRequest)
        }
    }

    /// Hands the wait the next event. The wait stays pending exactly when the
    /// step is [`PingStep::Pending`].
    pub fn on_event<E>(&mut self, event: PingEvent<E>) -> (step: PingStep)
        ensures
            step == old(self).step(event),
            *final(self) == old(self).after(event),
            final(self).ping_id() == old(self).ping_id(),
            final(self).pending() == (step is Pending),
    {
        if !self.open {
            return PingStep::Finished;
        }
        match event {
            PingEvent::Endpoint(Received::Envelope(RavalinkIPC::Message(response))) => {
                let accepted = match &response.message {
                    Message::Pong { id } => *id == self.ping_id,
                    _ => false,
                };
                if accepted {
                    self.open = false;
                    PingStep::Resolved(response.message)
                } else {
                    PingStep::Pending
                }
            },
            PingEvent::Endpoint(_) => {
                self.open = false;
                PingStep::Failed(DefaultError::FailedToReceiveIPCResponse)
            },
            PingEvent::Clock { elapsed_ms } => {
                if elapsed_ms >= HEARTBEAT_DEADLINE_MS {
                    self.open = false;
                    PingStep::Failed(DefaultError::TimedOut)
                } else {
                    PingStep::Pending
                }
            },
        }
    }
}

impl DefaultObject {
    /// What [`DefaultObject::ping_as`] returns: without a process-wide
    /// endpoint the failure that says so; with one, a ping under `ping_id` in
    /// an envelope that names no session and carries the endpoint, and the
    /// pending wait for the pong under the same id.
    pub open spec fn has_pinged<E>(
        outcome: Result<PendingPing<E>, DefaultError>,
        ping_id: Seq<char>,
        global_tx: Option<E>,
    ) -> bool {
        match global_tx {
            None => outcome == Err::<PendingPing<E>, DefaultError>(DefaultError::NoGlobalTX),
            Some(tx) => {
                &&& outcome matches Ok(pending)
                &&& pending.envelope matches RavalinkIPC::Message(m)
                &&& m.guild_id is None
                &&& m.response_tx == Some(tx)
                &&& m.message matches Message::Ping { id }
                &&& id@ == ping_id
                &&& pending.wait.ping_id() == ping_id
                &&& pending.wait.pending()
            },
        }
    }

    /// A heartbeat under the id `ping_id`, to go out through `global_tx`.
    pub fn ping_as<E>(&self, ping_id: String, global_tx: Option<E>) -> (outcome: Result<
        PendingPing<E>,
        DefaultError,
    >)
        ensures
            Self::has_pinged(outcome, ping_id@, global_tx),
    {
        let sender = match global_tx {
            Some(tx) => tx,
            None => {
                return Err(DefaultError::NoGlobalTX);
            },
        };
        let wait = PingWait::new(ping_id.clone());
        let envelope = RavalinkIPC::create_bot_ping_request(Message::Ping { id: ping_id }, sender);
        Ok(PendingPing { envelope, wait })
    }

    /// A heartbeat under a freshly minted id, to go out through `global_tx`.
    pub fn ping<E>(&self, global_tx: Option<E>) -> (outcome: Result<PendingPing<E>, DefaultError>)
        ensures
            global_tx is Some <==> outcome is Ok,
            exists|ping_id: Seq<char>|
                is_correlation_id(ping_id) && #[trigger] Self::has_pinged(
                    outcome,
                    ping_id,
                    global_tx,
                ),
    {
        let ping_id = fresh_correlation_id();
        self.ping_as(ping_id, global_tx)
    }
}

} // verus!
