//! The session handle and the request/response side of the correlation
//! engine.
//!
//! A request is tagged with a fresh correlation id and with the session of
//! the handle that makes it. The wait that belongs to it is resolved by the
//! one response that bears both, and by nothing else. The wait has no deadline:
//! only the response, or the failure of the endpoint, ends it.

use crate::background::processor::{RavalinkIPC, Received};
use crate::helpers::{fresh_correlation_id, is_correlation_id};
use crate::protocol::{ChannelId, Command, Message, Request, SessionId};
use vstd::prelude::*;

verus! {

/// How a session's request can fail.
#[derive(Clone, Copy, PartialEq, Eq, Structural, Debug)]
pub enum PlayerError {
    /// Kept for callers that match on it. Nothing here returns it.
    InitializationError,
    /// The session's endpoint closed, or the wait fell too far behind on it.
    FailedToReceiveIPCResponse,
    /// The internal path did not take the request.
    FailedToSendIPCRequest,
}

/// A caller's handle of one session: the session's id and the session's own
/// delivery endpoint.
#[derive(Debug)]
pub struct PlayerObject<E> {
    guild_id: SessionId,
    tx: E,
}

/// A wait for the response to one request.
#[derive(Debug)]
pub struct ResponseWait {
    job_id: String,
    guild_id: SessionId,
    open: bool,
}

/// What an event does to a wait.
#[derive(Clone, Debug, PartialEq, Eq)]
pub enum WaitStep {
    /// Nothing: the wait goes on.
    Pending,
    /// The wait has its response, and is over.
    Resolved(Message),
    /// The wait has failed, and is over.
    Failed(PlayerError),
    /// The wait was over before the event came.
    Finished,
}

/// A request on its way out: the envelope to put on the internal path, and
/// the wait for its response.
#[derive(Debug)]
pub struct PendingRequest<E> {
    pub envelope: RavalinkIPC<E>,
    pub wait: ResponseWait,
}

impl ResponseWait {
    /// The correlation id the wait was made with.
    pub closed spec fn job_id(&self) -> Seq<char> {
        self.job_id@
    }

    /// The session the wait was made with.
    pub closed spec fn guild_id(&self) -> SessionId {
        self.guild_id
    }

    /// Whether the wait is still pending.
    pub closed spec fn pending(&self) -> bool {
        self.open
    }

    /// Whether `message` is the response this wait is for: a response that
    /// bears the wait's correlation id and the wait's session.
    pub open spec fn accepts(&self, message: Message) -> bool {
        message matches Message::Response(response) && response.job_id@ == self.job_id()
            && response.guild_id == self.guild_id()
    }

    /// What handing the request to the internal path does to the wait. A
    /// request that was not taken fails the wait at once.
    pub open spec fn step_sent(&self, taken: bool) -> WaitStep {
        if !self.pending() {
            WaitStep::Finished
        } else if taken {
            WaitStep::Pending
        } else {
            WaitStep::Failed(PlayerError::FailedToSendIPCRequest)
        }
    }

    /// What an event on the session's endpoint does to the wait. The response
    /// the wait is for resolves it, to that response. A closed or lagging
    /// endpoint fails it. Every other envelope is passed over.
    pub open spec fn step<E>(&self, received: Received<E>) -> WaitStep {
        if !self.pending() {
            WaitStep::Finished
        } else {
            match received {
                Received::Envelope(ipc) => if self.accepts(ipc.message()) {
                    WaitStep::Resolved(ipc.message())
                } else {
                    WaitStep::Pending
                },
                Received::Closed => WaitStep::Failed(PlayerError::FailedToReceiveIPCResponse),
                Received::Lagged => WaitStep::Failed(PlayerError::FailedToReceiveIPCResponse),
            }
        }
    }

    /// The wait after it was told whether the internal path took the
    /// request: as it was, and pending only if it goes on.
    pub closed spec fn after_sent(&self, taken: bool) -> ResponseWait {
        ResponseWait {
            job_id: self.job_id,
            guild_id: self.guild_id,
            open: self.step_sent(taken) is Pending,
        }
    }

    /// The wait after an event: as it was, and pending only if it goes on.
    pub closed spec fn after<E>(&self, received: Received<E>) -> ResponseWait {
        ResponseWait {
            job_id: self.job_id,
            guild_id: self.guild_id,
            open: self.step(received) is Pending,
        }
    }

    /// The wait after a run of events, taken in order.
    pub open spec fn after_all<E>(&self, events: Seq<Received<E>>) -> ResponseWait
        decreases events.len(),
    {
        if events.len() == 0 {
            *self
        } else {
            self.after_all(events.drop_last()).after(events.last())
        }
    }

    /// How many events of a run, taken in order, resolve the wait.
    pub open spec fn resolutions<E>(&self, events: Seq<Received<E>>) -> nat
        decreases events.len(),
    {
        if events.len() == 0 {
            0
        } else {
            let before = self.resolutions(events.drop_last());
            if self.after_all(events.drop_last()).step(events.last()) is Resolved {
                before + 1
            } else {
                before
            }
        }
    }

    /// An event leaves the wait's correlation id and session as they were,
    /// and the wait pending exactly when the step is [`WaitStep::Pending`].
    pub proof fn after_keeps_what_the_wait_is_for<E>(self, received: Received<E>)
        ensures
            self.after(received).job_id() == self.job_id(),
            self.after(received).guild_id() == self.guild_id(),
            self.after(received).pending() == (self.step(received) is Pending),
    {
    }

    /// An envelope resolves a wait only if the wait is pending and the
    /// envelope holds a response that bears the correlation id and the
    /// session that the wait was made with. The wait is then resolved to that
    /// very response.
    pub proof fn resolved_only_by_own_response<E>(self, received: Received<E>)
        requires
            self.step(received) is Resolved,
        ensures
            self.pending(),
            ({
                &&& received matches Received::Envelope(ipc)
                &&& self.step(received) == WaitStep::Resolved(ipc.message())
                &&& ipc.message() matches Message::Response(response)
                &&& response.job_id@ == self.job_id()
                &&& response.guild_id == self.guild_id()
            }),
    {
    }

    /// Once a wait is over, nothing that is delivered does anything to it.
    pub proof fn finished_wait_ignores_everything<E>(self, received: Received<E>)
        requires
            !self.pending(),
        ensures
            self.step(received) is Finished,
            self.after(received) == self,
    {
    }

    /// The event that resolves a wait, delivered a second time, finds no wait
    /// that is pending: it resolves nothing and changes nothing.
    pub proof fn second_delivery_changes_nothing<E>(self, received: Received<E>)
        requires
            self.step(received) is Resolved,
        ensures
            self.after(received).step(received) is Finished,
            self.after(received).after(received) == self.after(received),
    {
    }

    /// Whatever is delivered, in whatever order and however often, a wait is
    /// resolved at most once; a wait that is over, never; and a wait that was
    /// resolved is over.
    pub proof fn resolves_at_most_once<E>(self, events: Seq<Received<E>>)
        ensures
            self.resolutions(events) <= 1,
            !self.pending() ==> self.resolutions(events) == 0,
            !self.pending() || self.resolutions(events) == 1 ==> !self.after_all(events).pending(),
        decreases events.len(),
    {
        if events.len() > 0 {
            self.resolves_at_most_once(events.drop_last());
        }
    }

    /// A pending wait for the response that bears `job_id` and `guild_id`.
    pub fn new(job_id: String, guild_id: SessionId) -> (wait: ResponseWait)
        ensures
            wait.job_id() == job_id@,
            wait.guild_id() == guild_id,
            wait.pending(),
    {
        ResponseWait { job_id, guild_id, open: true }
    }

    /// Whether the wait is still pending.
    pub fn is_pending(&self) -> (pending: bool)
        ensures
            pending == self.pending(),
    {
        self.open
    }

    /// Tells the wait whether the internal path took the request.
    pub fn on_sent(&mut self, taken: bool) -> (step: WaitStep)
        ensures
            step == old(self).step_sent(taken),
            *final(self) == old(self).after_sent(taken),
            final(self).job_id() == old(self).job_id(),
            final(self).guild_id() == old(self).guild_id(),
            final(self).pending() == (step is Pending),
    {
        if !self.open {
            WaitStep::Finished
        } else if taken {
            WaitStep::Pending
        } else {
            self.open = false;
            WaitStep::Failed(PlayerError::FailedToSendIPCRequest)
        }
    }

    /// Hands the wait the next event of its subscription to the session's
    /// endpoint. The wait stays pending exactly when the step is
    /// [`WaitStep::Pending`].
    pub fn on_event<E>(&mut self, received: Received<E>) -> (step: WaitStep)
        ensures
            step == old(self).step(received),
            *final(self) == old(self).after(received),
            final(self).job_id() == old(self).job_id(),
            final(self).guild_id() == old(self).guild_id(),
            final(self).pending() == (step is Pending),
    {
        if !self.open {
            return WaitStep::Finished;
        }
        match received {
            Received::Envelope(RavalinkIPC::Message(response)) => {
                let accepted = match &response.message {
                    Message::Response(res) => res.job_id == self.job_id && res.guild_id
                        == self.guild_id,
                    _ => false,
                };
                if accepted {
                    self.open = false;
                    WaitStep::Resolved(response.message)
                } else {
                    WaitStep::Pending
                }
            },
            Received::Closed => {
                self.open = false;
                WaitStep::Failed(PlayerError::FailedToReceiveIPCResponse)
            },
            Received::Lagged => {
                self.open = false;
                WaitStep::Failed(PlayerError::FailedToReceiveIPCResponse)
            },
        }
    }
}

impl<E> PlayerObject<E> {
    /// The session the handle stands for.
    pub closed spec fn guild(&self) -> SessionId {
        self.guild_id
    }

    /// The session's own delivery endpoint.
    pub closed spec fn endpoint(&self) -> E {
        self.tx
    }

    /// The handle of session `guild_id`, whose endpoint is `tx`.
    pub fn new(guild_id: SessionId, tx: E) -> (handle: Result<Self, PlayerError>)
        ensures
            handle matches Ok(h) && h.guild() == guild_id && h.endpoint() == tx,
    {
        Ok(PlayerObject { guild_id, tx })
    }

    /// The session the handle stands for.
    pub fn guild_id(&self) -> (guild_id: SessionId)
        ensures
            guild_id == self.guild(),
    {
        self.guild_id
    }

    /// The session's own delivery endpoint.
    pub fn tx(&self) -> (tx: &E)
        ensures
            *tx == self.endpoint(),
    {
        &self.tx
    }

    /// A pending wait for the response that bears `job_id` and `guild_id`, to
    /// be fed from a subscription to this handle's endpoint.
    pub fn wait_for_response(&self, job_id: String, guild_id: SessionId) -> (wait: ResponseWait)
        ensures
            wait.job_id() == job_id@,
            wait.guild_id() == guild_id,
            wait.pending(),
    {
        ResponseWait::new(job_id, guild_id)
    }
}

impl<E: Clone> PlayerObject<E> {
    /// Whether `pending` is this handle's request for `command`, made at
    /// `timestamp` under the correlation id `job_id`: the envelope is tagged
    /// with the handle's session and carries a handle of its endpoint, the
    /// request in it bears the id, the session, the target, the command and
    /// the time, and the wait is pending for that id and that session.
    pub open spec fn has_issued(
        &self,
        pending: PendingRequest<E>,
        job_id: Seq<char>,
        timestamp: u64,
        command: Command,
        voice_channel_id: Option<ChannelId>,
    ) -> bool {
        &&& pending.envelope matches RavalinkIPC::Message(m)
        &&& m.guild_id == Some(self.guild())
        &&& m.response_tx matches Some(tx)
        &&& cloned(self.endpoint(), tx)
        &&& m.message matches Message::Request(request)
        &&& request.job_id@ == job_id
        &&& request.guild_id == self.guild()
        &&& request.voice_channel_id == voice_channel_id
        &&& request.command == command
        &&& request.timestamp == timestamp
        &&& pending.wait.job_id() == job_id
        &&& pending.wait.guild_id() == self.guild()
        &&& pending.wait.pending()
    }

    /// Whether `pending` is this handle's request for `command`, made at
    /// `timestamp` under a freshly minted correlation id.
    pub open spec fn has_sent(
        &self,
        pending: PendingRequest<E>,
        timestamp: u64,
        command: Command,
        voice_channel_id: Option<ChannelId>,
    ) -> bool {
        &&& is_correlation_id(pending.wait.job_id())
        &&& self.has_issued(pending, pending.wait.job_id(), timestamp, command, voice_channel_id)
    }

    /// This handle's request for `command` under the correlation id `job_id`.
    pub fn request(
        &self,
        job_id: String,
        timestamp: u64,
        command: Command,
        voice_channel_id: Option<ChannelId>,
    ) -> (pending: PendingRequest<E>)
        ensures
            self.has_issued(pending, job_id@, timestamp, command, voice_channel_id),
    {
        let guild_id = self.guild_id;
        let wait = self.wait_for_response(job_id.clone(), guild_id);
        let envelope = RavalinkIPC::create_bot_request(
            Message::Request(Request { job_id, guild_id, voice_channel_id, command, timestamp }),
            self.tx.clone(),
            guild_id,
        );
        PendingRequest { envelope, wait }
    }

    /// This handle's request for `command` under a freshly minted correlation
    /// id. `timestamp` is the time of the request in seconds since the Unix
    /// epoch.
    pub fn send_request_with_response(
        &self,
        command: Command,
        voice_channel_id: Option<ChannelId>,
        timestamp: u64,
    ) -> (pending: PendingRequest<E>)
        ensures
            self.has_sent(pending, timestamp, command, voice_channel_id),
    {
        let job_id = fresh_correlation_id();
        self.request(job_id, timestamp, command, voice_channel_id)
    }
}

} // verus!
