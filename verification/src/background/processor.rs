//! The background processor: the one owner of the routing table and the one
//! writer to the bus.
//!
//! The processor is a state machine. Whoever drives it waits on the internal
//! path and on the bus, hands over what arrived, and carries out what comes
//! back: publish a message, deliver an envelope to an endpoint, or stop.
//!
//! `E` is the handle of a delivery endpoint. The processor stores handles and
//! hands them back; it never looks inside one.

use crate::protocol::{Message, NonZeroId, SessionId};
use std::collections::HashMap;
use vstd::prelude::*;

verus! {

/// How many envelopes an endpoint keeps for a subscriber that has fallen
/// behind. One that falls further behind misses envelopes.
pub const ENDPOINT_CAPACITY: usize = 16;

/// A message with its routing data.
#[derive(Clone, Debug, PartialEq, Eq)]
pub struct RavalinkMessage<E> {
    pub message: Message,
    /// The session the message belongs to. Absent for heartbeat traffic.
    pub guild_id: Option<SessionId>,
    /// The sender's own endpoint. Present on the way into the processor only.
    pub response_tx: Option<E>,
}

/// What travels on the internal path and on every endpoint.
#[derive(Clone, Debug, PartialEq, Eq)]
pub enum RavalinkIPC<E> {
    Message(RavalinkMessage<E>),
}

impl<E> RavalinkIPC<E> {
    /// The envelope of a heartbeat probe: the sender's endpoint and no session.
    pub fn create_bot_ping_request(message: Message, sender: E) -> (ipc: RavalinkIPC<E>)
        ensures
            ipc == RavalinkIPC::Message(
                RavalinkMessage { message, guild_id: None, response_tx: Some(sender) },
            ),
    {
        RavalinkIPC::Message(RavalinkMessage { message, guild_id: None, response_tx: Some(sender) })
    }

    /// The envelope of a session's request: the session and its endpoint.
    pub fn create_bot_request(message: Message, sender: E, guild_id: SessionId) -> (ipc:
        RavalinkIPC<E>)
        ensures
            ipc == RavalinkIPC::Message(
                RavalinkMessage { message, guild_id: Some(guild_id), response_tx: Some(sender) },
            ),
    {
        RavalinkIPC::Message(
            RavalinkMessage { message, guild_id: Some(guild_id), response_tx: Some(sender) },
        )
    }

    /// The envelope of a message that came off the bus. Its session is the
    /// one the message itself names; it carries no endpoint.
    pub fn create_server_response(message: Message) -> (ipc: RavalinkIPC<E>)
        ensures
            ipc == Self::server_response(message),
    {
        let guild_id = message.get_guild_id();
        RavalinkIPC::Message(RavalinkMessage { message, guild_id, response_tx: None })
    }

    /// The envelope that [`RavalinkIPC::create_server_response`] makes.
    pub open spec fn server_response(message: Message) -> RavalinkIPC<E> {
        RavalinkIPC::Message(
            RavalinkMessage { message, guild_id: message.session(), response_tx: None },
        )
    }

    /// The message inside the envelope.
    pub open spec fn message(&self) -> Message {
        match self {
            RavalinkIPC::Message(m) => m.message,
        }
    }

    /// The session the envelope is tagged with.
    pub open spec fn session(&self) -> Option<SessionId> {
        match self {
            RavalinkIPC::Message(m) => m.guild_id,
        }
    }

    /// The endpoint the envelope carries.
    pub open spec fn endpoint(&self) -> Option<E> {
        match self {
            RavalinkIPC::Message(m) => m.response_tx,
        }
    }

    /// An envelope that names a session and carries something other than a
    /// pong must bring the endpoint to register for that session.
    pub open spec fn spec_is_routable(&self) -> bool {
        self.message() is Pong || self.session() is None || self.endpoint() is Some
    }

    /// Whether the processor can take the envelope from the internal path.
    #[verifier::when_used_as_spec(spec_is_routable)]
    pub fn is_routable(&self) -> (ok: bool)
        ensures
            ok == self.spec_is_routable(),
    {
        match self {
            RavalinkIPC::Message(m) => {
                match m.message {
                    Message::Pong { .. } => true,
                    _ => m.guild_id.is_none() || m.response_tx.is_some(),
                }
            },
        }
    }
}

/// The map from a session to its private delivery endpoint.
#[derive(Debug)]
pub struct RoutingTable<E> {
    entries: HashMap<u64, E>,
}

impl<E> View for RoutingTable<E> {
    type V = Map<u64, E>;

    /// The endpoint of each session that has one, by the session's value.
    closed spec fn view(&self) -> Map<u64, E> {
        self.entries@
    }
}

/// Why a message from the bus went nowhere.
#[derive(Clone, Copy, PartialEq, Eq, Structural, Debug)]
pub enum DropReason {
    /// The bus handed over a record without a payload.
    MissingPayload,
    /// The payload is no message of the protocol.
    Undecodable,
    /// The bus client reported an error in place of a record.
    ConsumerFailure,
    /// The bus had nothing to hand over.
    NothingReceived,
    /// A ping, which only ever leaves this process.
    EchoedPing,
    /// A request, which only ever leaves this process.
    EchoedRequest,
    /// The message names a session that has no endpoint in the table.
    Unroutable,
    /// The processor has stopped.
    ProcessorStopped,
}

/// Where a message from the bus goes.
#[derive(Debug, PartialEq, Eq)]
pub enum Delivery<'a, E> {
    /// To the private endpoint of the session the message names.
    Session { endpoint: &'a E, envelope: RavalinkIPC<E> },
    /// To the process-wide endpoint.
    Global { envelope: RavalinkIPC<E> },
    /// Nowhere.
    Dropped { reason: DropReason },
}

impl<'a, E> Delivery<'a, E> {
    /// What a subscriber to `endpoint` is brought when the delivery is
    /// carried out: the envelope, if the delivery is to that endpoint, and
    /// nothing otherwise.
    pub open spec fn brings_to(self, endpoint: E) -> Option<Received<E>> {
        match self {
            Delivery::Session { endpoint: to, envelope } => if *to == endpoint {
                Some(Received::Envelope(envelope))
            } else {
                None
            },
            _ => None,
        }
    }

    /// What a subscriber to the process-wide endpoint is brought when the
    /// delivery is carried out.
    pub open spec fn brings_to_global(self) -> Option<Received<E>> {
        match self {
            Delivery::Global { envelope } => Some(Received::Envelope(envelope)),
            _ => None,
        }
    }
}

impl<E> RoutingTable<E> {
    /// The empty table.
    pub fn new() -> (table: Self)
        ensures
            table@ == Map::<u64, E>::empty(),
    {
        RoutingTable { entries: HashMap::new() }
    }

    /// Makes `endpoint` the endpoint of `session`, whatever it was before.
    /// Every other session keeps its own.
    pub fn register_or_replace(&mut self, session: SessionId, endpoint: E)
        ensures
            final(self)@ == old(self)@.insert(session@, endpoint),
    {
        broadcast use vstd::std_specs::hash::group_hash_axioms;

        self.entries.insert(session.get(), endpoint);
    }

    /// The endpoint registered for `session`, if there is one.
    pub fn lookup(&self, session: SessionId) -> (endpoint: Option<&E>)
        ensures
            match endpoint {
                Some(e) => self@.contains_key(session@) && *e == self@[session@],
                None => !self@.contains_key(session@),
            },
    {
        broadcast use vstd::std_specs::hash::group_hash_axioms;

        let key = session.get();
        self.entries.get(&key)
    }

    /// Where `message`, decoded from the bus, goes under this table.
    ///
    /// A ping or a request is an echo of what this process published and is
    /// dropped. A message that names a session goes to that session's endpoint
    /// and to no other, or nowhere if the session has none. A message without
    /// a session goes to the process-wide endpoint.
    pub open spec fn route(&self, message: Message) -> Delivery<'_, E> {
        match message {
            Message::Ping { .. } => Delivery::Dropped { reason: DropReason::EchoedPing },
            Message::Request(_) => Delivery::Dropped { reason: DropReason::EchoedRequest },
            _ => match message.session() {
                Some(session) => if self@.contains_key(session@) {
                    Delivery::Session {
                        endpoint: &self@[session@],
                        envelope: RavalinkIPC::server_response(message),
                    }
                } else {
                    Delivery::Dropped { reason: DropReason::Unroutable }
                },
                None => Delivery::Global { envelope: RavalinkIPC::server_response(message) },
            },
        }
    }

    /// A message that names a session is delivered to the endpoint that the
    /// table holds for that session, in an envelope that holds the message
    /// and is tagged with the session, or it is dropped. It is never
    /// delivered to the process-wide endpoint.
    pub proof fn routes_by_the_session_named(self, message: Message, session: SessionId)
        requires
            message.session() == Some(session),
        ensures
            match self.route(message) {
                Delivery::Session { endpoint, envelope } => {
                    &&& self@.contains_key(session@)
                    &&& *endpoint == self@[session@]
                    &&& envelope.message() == message
                    &&& envelope.session() == Some(session)
                    &&& envelope.endpoint() is None
                },
                Delivery::Global { .. } => false,
                Delivery::Dropped { reason } => {
                    ||| reason == DropReason::EchoedRequest && message is Request
                    ||| reason == DropReason::Unroutable && !self@.contains_key(session@)
                },
            },
    {
    }

    /// Routing isolation. Of two distinct sessions `a` and `b` that do not
    /// share one endpoint, a message for `a` is never brought to the
    /// subscribers of `b`'s endpoint.
    pub proof fn never_delivered_to_another_session(
        self,
        message: Message,
        a: SessionId,
        b: SessionId,
    )
        requires
            a != b,
            message.session() == Some(a),
            self@.contains_key(b@),
            self@.contains_key(a@) ==> self@[a@] != self@[b@],
        ensures
            self.route(message).brings_to(self@[b@]) is None,
    {
    }

    /// A message that names a session without an endpoint is dropped: it is
    /// brought to the subscribers of no endpoint, the process-wide one
    /// included, whatever the table holds for other sessions.
    pub proof fn unroutable_is_dropped(self, message: Message, session: SessionId)
        requires
            message.session() == Some(session),
            !self@.contains_key(session@),
        ensures
            self.route(message) is Dropped,
            self.route(message).brings_to_global() is None,
            forall|endpoint: E| (#[trigger] self.route(message).brings_to(endpoint)) is None,
    {
    }
}

/// Decides where a message that came off the bus is delivered.
pub fn parse_message<'a, E>(message: Message, guild_id_to_tx: &'a RoutingTable<E>) -> (delivery:
    Delivery<'a, E>)
    ensures
        delivery == guild_id_to_tx.route(message),
{
    match message {
        Message::Ping { .. } => {
            return Delivery::Dropped { reason: DropReason::EchoedPing };
        },
        Message::Request(_) => {
            return Delivery::Dropped { reason: DropReason::EchoedRequest };
        },
        _ => {},
    }
    match message.get_guild_id() {
        Some(guild_id) => match guild_id_to_tx.lookup(guild_id) {
            Some(tx) => Delivery::Session {
                endpoint: tx,
                envelope: RavalinkIPC::create_server_response(message),
            },
            None => Delivery::Dropped { reason: DropReason::Unroutable },
        },
        None => Delivery::Global { envelope: RavalinkIPC::create_server_response(message) },
    }
}

/// What waiting on the internal path, or on an endpoint, brought.
#[derive(Clone, Debug, PartialEq, Eq)]
pub enum Received<E> {
    /// The next envelope.
    Envelope(RavalinkIPC<E>),
    /// The path is closed for good: every sender is gone.
    Closed,
    /// The receiver fell behind and missed envelopes. The path is still open.
    Lagged,
}

/// What waiting on the bus brought.
#[derive(Clone, Debug, PartialEq, Eq)]
pub enum BusInput {
    /// A record whose payload decoded to a message.
    Decoded(Message),
    /// A record without a payload.
    MissingPayload,
    /// A record whose payload is no message of the protocol.
    Undecodable,
    /// An error of the bus client in place of a record.
    ConsumerFailure,
    /// Nothing.
    NothingReceived,
}

/// What the processor asks for after an event on the internal path.
#[derive(Clone, Debug, PartialEq, Eq)]
pub enum Outbound {
    /// Serialise the message and publish it to the bus.
    Publish(Message),
    /// Do nothing and go on.
    Skip,
    /// Leave the loop: the processor has stopped.
    Stop,
}

/// The background processor's state: the routing table, and whether the
/// processor still runs.
#[derive(Debug)]
pub struct Processor<E> {
    guild_id_to_tx: RoutingTable<E>,
    running: bool,
}

impl<E> Processor<E> {
    /// The routing table as the processor holds it.
    pub closed spec fn table(&self) -> RoutingTable<E> {
        self.guild_id_to_tx
    }

    /// False once the internal path was found closed.
    pub closed spec fn running(&self) -> bool {
        self.running
    }

    /// The routing table after an event on the internal path. Only a running
    /// processor changes it, and only for an envelope that names a session,
    /// brings an endpoint and carries no pong: that session then has that
    /// endpoint.
    pub open spec fn routes_after(&self, received: Received<E>) -> Map<u64, E> {
        match received {
            Received::Envelope(ipc) => if self.running() && !(ipc.message() is Pong)
                && ipc.session() is Some && ipc.endpoint() is Some {
                self.table()@.insert(ipc.session()->0@, ipc.endpoint()->0)
            } else {
                self.table()@
            },
            _ => self.table()@,
        }
    }

    /// What an event on the internal path makes the processor ask for. A
    /// stopped processor asks to stop. A running one stops when the path is
    /// closed, skips a lag and a pong, and publishes every other message.
    pub open spec fn outbound(&self, received: Received<E>) -> Outbound {
        if !self.running() {
            Outbound::Stop
        } else {
            match received {
                Received::Closed => Outbound::Stop,
                Received::Lagged => Outbound::Skip,
                Received::Envelope(ipc) => if ipc.message() is Pong {
                    Outbound::Skip
                } else {
                    Outbound::Publish(ipc.message())
                },
            }
        }
    }

    /// Where what the bus brought goes. A stopped processor routes nothing.
    /// A running one routes a decoded message by its table and drops
    /// everything else under the name of what was wrong with it.
    pub open spec fn inbound(&self, input: BusInput) -> Delivery<'_, E> {
        if !self.running() {
            Delivery::Dropped { reason: DropReason::ProcessorStopped }
        } else {
            match input {
                BusInput::Decoded(message) => self.table().route(message),
                BusInput::MissingPayload => Delivery::Dropped {
                    reason: DropReason::MissingPayload,
                },
                BusInput::Undecodable => Delivery::Dropped { reason: DropReason::Undecodable },
                BusInput::ConsumerFailure => Delivery::Dropped {
                    reason: DropReason::ConsumerFailure,
                },
                BusInput::NothingReceived => Delivery::Dropped {
                    reason: DropReason::NothingReceived,
                },
            }
        }
    }

    /// The processor never takes a session's endpoint away: whatever comes
    /// in on the internal path, a session that had an endpoint has one
    /// afterwards, and only the session that an envelope names can have
    /// another one than before.
    pub proof fn routes_are_kept(self, received: Received<E>, session: SessionId)
        requires
            self.table()@.contains_key(session@),
        ensures
            self.routes_after(received).contains_key(session@),
            !(received matches Received::Envelope(ipc) && ipc.session() == Some(session))
                ==> self.routes_after(received)[session@] == self.table()@[session@],
    {
        NonZeroId::view_is_injective(session, session);
        match received {
            Received::Envelope(ipc) => {
                if ipc.session() is Some {
                    NonZeroId::view_is_injective(ipc.session()->0, session);
                }
            },
            _ => {},
        }
    }

    /// A running processor with an empty routing table.
    pub fn new() -> (processor: Self)
        ensures
            processor.running(),
            processor.table()@ == Map::<u64, E>::empty(),
    {
        Processor { guild_id_to_tx: RoutingTable::new(), running: true }
    }

    /// Whether the processor still runs.
    pub fn is_running(&self) -> (running: bool)
        ensures
            running == self.running(),
    {
        self.running
    }

    /// The routing table.
    pub fn routing_table(&self) -> (table: &RoutingTable<E>)
        ensures
            *table == self.table(),
    {
        &self.guild_id_to_tx
    }

    /// Takes one event from the internal path.
    ///
    /// The endpoint that an envelope brings is registered before the
    /// envelope's message is handed back for publishing, so a session's first
    /// request has set up its route by the time any answer can arrive.
    pub fn on_ipc(&mut self, received: Received<E>) -> (outbound: Outbound)
        requires
            received matches Received::Envelope(ipc) ==> ipc.is_routable(),
        ensures
            outbound == old(self).outbound(received),
            final(self).table()@ == old(self).routes_after(received),
            final(self).running() == (old(self).running() && !(received is Closed)),
    {
        if !self.running {
            return Outbound::Stop;
        }
        match received {
            Received::Envelope(RavalinkIPC::Message(m)) => {
                if let Message::Pong { .. } = &m.message {
                    Outbound::Skip
                } else {
                    if let Some(guild_id) = m.guild_id {
                        self.guild_id_to_tx.register_or_replace(guild_id, m.response_tx.unwrap());
                    }
                    Outbound::Publish(m.message)
                }
            },
            Received::Closed => {
                self.running = false;
                Outbound::Stop
            },
            Received::Lagged => Outbound::Skip,
        }
    }

    /// Takes what waiting on the bus brought and says where it goes. The
    /// routing table is only read.
    pub fn on_bus(&self, input: BusInput) -> (delivery: Delivery<'_, E>)
        ensures
            delivery == self.inbound(input),
    {
        if !self.running {
            return Delivery::Dropped { reason: DropReason::ProcessorStopped };
        }
        match input {
            BusInput::Decoded(message) => parse_message(message, &self.guild_id_to_tx),
            BusInput::MissingPayload => Delivery::Dropped { reason: DropReason::MissingPayload },
            BusInput::Undecodable => Delivery::Dropped { reason: DropReason::Undecodable },
            BusInput::ConsumerFailure => Delivery::Dropped { reason: DropReason::ConsumerFailure },
            BusInput::NothingReceived => Delivery::Dropped { reason: DropReason::NothingReceived },
        }
    }
}

} // verus!
