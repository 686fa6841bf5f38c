//! What the processor, the waits and the dispatchers promise together.
//!
//! The processor decides where a message from the bus is delivered; a wait or
//! a dispatcher is fed from a subscription to one endpoint. The functions
//! here say what a delivery does to a subscriber, and the proofs say what
//! holds of every processor, every message and every subscriber.

use crate::background::processor::{BusInput, Delivery, Outbound, Processor, Received};
use crate::handlers::default::{Dispatch, EventDispatcher};
use crate::managers::default_manager::{PingEvent, PingStep, PingWait};
use crate::player::{PendingRequest, PlayerObject, ResponseWait, WaitStep};
use crate::protocol::{ChannelId, Command, Event, Message, Response, SessionId};
use vstd::prelude::*;

verus! {

/// What carrying out `delivery` does to a wait for a response that is
/// subscribed to `endpoint`. A delivery to another endpoint, or to none, does
/// not reach the wait.
pub open spec fn response_wait_step<E>(
    wait: ResponseWait,
    delivery: Delivery<E>,
    endpoint: E,
) -> Option<WaitStep> {
    match delivery.brings_to(endpoint) {
        Some(received) => Some(wait.step(received)),
        None => None,
    }
}

/// The wait of [`response_wait_step`] after the delivery was carried out.
pub open spec fn response_wait_after<E>(
    wait: ResponseWait,
    delivery: Delivery<E>,
    endpoint: E,
) -> ResponseWait {
    match delivery.brings_to(endpoint) {
        Some(received) => wait.after(received),
        None => wait,
    }
}

/// What carrying out `delivery` does to a wait for a pong, which is
/// subscribed to the process-wide endpoint.
pub open spec fn ping_wait_step<E>(wait: PingWait, delivery: Delivery<E>) -> Option<PingStep> {
    match delivery.brings_to_global() {
        Some(received) => Some(wait.step(PingEvent::Endpoint(received))),
        None => None,
    }
}

/// What carrying out `delivery` makes a dispatcher decide that is subscribed
/// to `endpoint`.
pub open spec fn dispatcher_decision<E>(
    dispatcher: EventDispatcher,
    delivery: Delivery<E>,
    endpoint: E,
) -> Option<Dispatch> {
    match delivery.brings_to(endpoint) {
        Some(received) => Some(dispatcher.decide(received)),
        None => None,
    }
}

/// Whether the delivery reached the wait and resolved it.
pub open spec fn resolves(step: Option<WaitStep>) -> bool {
    step matches Some(s) && s is Resolved
}

/// Whether the delivery reached the waiting ping and resolved it.
pub open spec fn resolves_ping(step: Option<PingStep>) -> bool {
    step matches Some(s) && s is Resolved
}

/// Whether the delivery reached the dispatcher and was handed on by it.
pub open spec fn hands_on(decision: Option<Dispatch>) -> bool {
    decision matches Some(d) && (d is Event || d is Error)
}

/// A response from the bus resolves a wait only if the wait was made with
/// the correlation id and the session that the response bears and is
/// subscribed to the endpoint that the routing table holds for that session.
/// The wait is then resolved to that very response.
pub proof fn response_resolves_only_its_own_wait<E>(
    processor: Processor<E>,
    response: Response,
    wait: ResponseWait,
    endpoint: E,
)
    requires
        resolves(
            response_wait_step(
                wait,
                processor.inbound(BusInput::Decoded(Message::Response(response))),
                endpoint,
            ),
        ),
    ensures
        wait.pending(),
        wait.job_id() == response.job_id@,
        wait.guild_id() == response.guild_id,
        processor.running(),
        processor.table()@.contains_key(response.guild_id@),
        processor.table()@[response.guild_id@] == endpoint,
        response_wait_step(
            wait,
            processor.inbound(BusInput::Decoded(Message::Response(response))),
            endpoint,
        ) == Some(WaitStep::Resolved(Message::Response(response))),
{
    let message = Message::Response(response);
    processor.table().routes_by_the_session_named(message, response.guild_id);
    let received = processor.inbound(BusInput::Decoded(message)).brings_to(endpoint)->0;
    wait.resolved_only_by_own_response(received);
}

/// An event from the bus is handed on by a dispatcher only if the dispatcher
/// runs for the session that the event names and is subscribed to the
/// endpoint that the routing table holds for that session. It is handed on as
/// an error exactly when it reports one.
pub proof fn event_reaches_only_its_own_dispatcher<E>(
    processor: Processor<E>,
    event: Event,
    dispatcher: EventDispatcher,
    endpoint: E,
)
    requires
        hands_on(
            dispatcher_decision(
                dispatcher,
                processor.inbound(BusInput::Decoded(Message::Event(event))),
                endpoint,
            ),
        ),
    ensures
        dispatcher.running(),
        dispatcher.guild_id() == event.guild_id,
        processor.table()@.contains_key(event.guild_id@),
        processor.table()@[event.guild_id@] == endpoint,
        dispatcher_decision(
            dispatcher,
            processor.inbound(BusInput::Decoded(Message::Event(event))),
            endpoint,
        ) == Some(
            if event.event_type == crate::protocol::EventType::ErrorOccurred {
                Dispatch::Error(event)
            } else {
                Dispatch::Event(event)
            },
        ),
{
    let message = Message::Event(event);
    processor.table().routes_by_the_session_named(message, event.guild_id);
}

/// A pong from the bus resolves a waiting ping only if the ping was sent
/// under the id that the pong bears. It reaches no session's endpoint.
pub proof fn pong_resolves_only_its_own_ping<E>(
    processor: Processor<E>,
    id: String,
    wait: PingWait,
)
    ensures
        forall|endpoint: E|
            (#[trigger] processor.inbound(BusInput::Decoded(Message::Pong { id })).brings_to(
                endpoint,
            )) is None,
        resolves_ping(
            ping_wait_step(wait, processor.inbound(BusInput::Decoded(Message::Pong { id }))),
        ) ==> wait.pending() && wait.ping_id() == id@ && ping_wait_step(
            wait,
            processor.inbound(BusInput::Decoded(Message::Pong { id })),
        ) == Some(PingStep::Resolved(Message::Pong { id })),
{
}

/// A message from the bus that names a session without an endpoint is
/// dropped, and does nothing to any wait or dispatcher: it reaches none,
/// whatever endpoint that one is subscribed to, and no waiting ping either.
pub proof fn dropped_message_reaches_no_subscriber<E>(
    processor: Processor<E>,
    message: Message,
    session: SessionId,
)
    requires
        message.session() == Some(session),
        !processor.table()@.contains_key(session@),
    ensures
        processor.inbound(BusInput::Decoded(message)) is Dropped,
        forall|wait: ResponseWait, endpoint: E|
            #![trigger response_wait_step(wait, processor.inbound(BusInput::Decoded(message)), endpoint)]
            response_wait_step(wait, processor.inbound(BusInput::Decoded(message)), endpoint)
                is None && response_wait_after(
                wait,
                processor.inbound(BusInput::Decoded(message)),
                endpoint,
            ) == wait,
        forall|dispatcher: EventDispatcher, endpoint: E|
            (#[trigger] dispatcher_decision(
                dispatcher,
                processor.inbound(BusInput::Decoded(message)),
                endpoint,
            )) is None,
        forall|wait: PingWait|
            (#[trigger] ping_wait_step(wait, processor.inbound(BusInput::Decoded(message))))
                is None,
{
    if processor.running() {
        processor.table().unroutable_is_dropped(message, session);
    }
}

/// Taking the same input from the bus twice resolves a wait at most once. If
/// the first delivery resolves the wait, the second finds it over, resolves
/// nothing and changes nothing.
pub proof fn duplicate_delivery_resolves_once<E>(
    processor: Processor<E>,
    input: BusInput,
    wait: ResponseWait,
    endpoint: E,
)
    ensures
        ({
            let delivery = processor.inbound(input);
            let first = response_wait_step(wait, delivery, endpoint);
            let between = response_wait_after(wait, delivery, endpoint);
            let second = response_wait_step(between, delivery, endpoint);
            let last = response_wait_after(between, delivery, endpoint);
            &&& !(resolves(first) && resolves(second))
            &&& resolves(first) ==> second == Some(WaitStep::Finished) && last == between
        }),
{
    let delivery = processor.inbound(input);
    match delivery.brings_to(endpoint) {
        Some(received) => {
            if wait.step(received) is Resolved {
                wait.second_delivery_changes_nothing(received);
            } else {
                wait.after_keeps_what_the_wait_is_for(received);
            }
        },
        None => {},
    }
}

/// A request and its response, end to end. A running processor that takes a
/// handle's request from the internal path asks to publish it and holds, for
/// the handle's session, the endpoint that the request brought. Any response
/// that then comes off the bus with the request's correlation id and session
/// is delivered to that endpoint, and resolves the request's wait to itself.
pub proof fn response_finds_the_way_back<E: Clone>(
    player: PlayerObject<E>,
    pending: PendingRequest<E>,
    job_id: Seq<char>,
    timestamp: u64,
    command: Command,
    voice_channel_id: Option<ChannelId>,
    before: Processor<E>,
    after: Processor<E>,
    response: Response,
)
    requires
        player.has_issued(pending, job_id, timestamp, command, voice_channel_id),
        before.running(),
        after.running(),
        after.table()@ == before.routes_after(Received::Envelope(pending.envelope)),
        response.job_id@ == job_id,
        response.guild_id == player.guild(),
    ensures
        pending.envelope.is_routable(),
        before.outbound(Received::Envelope(pending.envelope)) == Outbound::Publish(
            pending.envelope.message(),
        ),
        ({
            &&& after.inbound(BusInput::Decoded(Message::Response(response)))
                matches Delivery::Session { endpoint, envelope }
            &&& Some(*endpoint) == pending.envelope.endpoint()
            &&& cloned(player.endpoint(), *endpoint)
            &&& pending.wait.step(Received::Envelope(envelope)) == WaitStep::Resolved(
                Message::Response(response),
            )
        }),
{
}

} // verus!
