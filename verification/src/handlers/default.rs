//! The event dispatcher of one session.
//!
//! A dispatcher is fed from a subscription to its session's endpoint. It
//! passes over everything but the events of its own session, and hands each
//! of those to one of the handler's two operations: the one for errors if the
//! event reports an error, the one for events otherwise.

use crate::background::processor::{RavalinkIPC, Received};
use crate::player::PlayerObject;
use crate::protocol::{Event, EventType, Message, SessionId};
use vstd::prelude::*;

verus! {

/// What the embedding application does with a session's events.
pub trait RavalinkEventHandler {
    /// Takes an event that reports no error.
    fn handle_event(&self, event: Event);

    /// Takes an event that reports an error.
    fn handle_error(&self, error: Event);
}

/// The dispatcher of one session's events.
#[derive(Debug)]
pub struct EventDispatcher {
    guild_id: SessionId,
    open: bool,
}

/// What the dispatcher makes of what its subscription brought.
#[derive(Clone, Debug, PartialEq, Eq)]
pub enum Dispatch {
    /// An event of the session that reports no error: for `handle_event`.
    Event(Event),
    /// An event of the session that reports an error: for `handle_error`.
    Error(Event),
    /// Not an event, or an event of another session: for nobody.
    Ignored,
    /// The endpoint is closed for good, or was found so before: the
    /// dispatcher has ended.
    Ended,
}

/// What the dispatcher did with what its subscription brought.
#[derive(Clone, Copy, PartialEq, Eq, Structural, Debug)]
pub enum Dispatched {
    /// It called `handle_event`, once.
    ToHandleEvent,
    /// It called `handle_error`, once.
    ToHandleError,
    /// It called nothing.
    Ignored,
    /// It called nothing, and has ended.
    Ended,
}

impl Dispatch {
    /// The operation a decision leads to.
    pub open spec fn operation(&self) -> Dispatched {
        match self {
            Dispatch::Event(_) => Dispatched::ToHandleEvent,
            Dispatch::Error(_) => Dispatched::ToHandleError,
            Dispatch::Ignored => Dispatched::Ignored,
            Dispatch::Ended => Dispatched::Ended,
        }
    }
}

impl EventDispatcher {
    /// The session whose events the dispatcher hands on.
    pub closed spec fn guild_id(&self) -> SessionId {
        self.guild_id
    }

    /// False once the endpoint was found closed.
    pub closed spec fn running(&self) -> bool {
        self.open
    }

    /// What the dispatcher makes of what its subscription brought. Only an
    /// event whose own session is the dispatcher's is handed on, as an error
    /// exactly when its type says that an error occurred. A lag is passed
    /// over. A closed endpoint ends the dispatcher.
    pub open spec fn decide<E>(&self, received: Received<E>) -> Dispatch {
        if !self.running() {
            Dispatch::Ended
        } else {
            match received {
                Received::Envelope(ipc) => match ipc.message() {
                    Message::Event(event) => if event.guild_id == self.guild_id() {
                        if event.event_type == EventType::ErrorOccurred {
                            Dispatch::Error(event)
                        } else {
                            Dispatch::Event(event)
                        }
                    } else {
                        Dispatch::Ignored
                    },
                    _ => Dispatch::Ignored,
                },
                Received::Lagged => Dispatch::Ignored,
                Received::Closed => Dispatch::Ended,
            }
        }
    }

    /// A running dispatcher for the events of `guild_id`.
    pub fn new(guild_id: SessionId) -> (dispatcher: EventDispatcher)
        ensures
            dispatcher.guild_id() == guild_id,
            dispatcher.running(),
    {
        EventDispatcher { guild_id, open: true }
    }

    /// Whether the dispatcher still runs.
    pub fn is_running(&self) -> (running: bool)
        ensures
            running == self.running(),
    {
        self.open
    }

    /// Takes what the subscription brought and says whom it is for.
    pub fn classify<E>(&mut self, received: Received<E>) -> (dispatch: Dispatch)
        ensures
            dispatch == old(self).decide(received),
            final(self).guild_id() == old(self).guild_id(),
            final(self).running() == !(dispatch is Ended),
    {
        if !self.open {
            return Dispatch::Ended;
        }
        match received {
            Received::Envelope(RavalinkIPC::Message(ravalink_message)) => {
                match ravalink_message.message {
                    Message::Event(event) => {
                        if event.guild_id == self.guild_id {
                            match event.event_type {
                                EventType::ErrorOccurred => Dispatch::Error(event),
                                _ => Dispatch::Event(event),
                            }
                        } else {
                            Dispatch::Ignored
                        }
                    },
                    _ => Dispatch::Ignored,
                }
            },
            Received::Lagged => Dispatch::Ignored,
            Received::Closed => {
                self.open = false;
                Dispatch::Ended
            },
        }
    }

    /// Takes what the subscription brought and calls the operation of
    /// `event_handler` that it is for, if it is for one, with the event.
    /// Returns which operation that was.
    pub fn dispatch<E, H: RavalinkEventHandler>(
        &mut self,
        event_handler: &H,
        received: Received<E>,
    ) -> (dispatched: Dispatched)
        ensures
            dispatched == old(self).decide(received).operation(),
            final(self).guild_id() == old(self).guild_id(),
            final(self).running() == !(dispatched is Ended),
    {
        match self.classify(received) {
            Dispatch::Event(event) => {
                event_handler.handle_event(event);
                Dispatched::ToHandleEvent
            },
            Dispatch::Error(error) => {
                event_handler.handle_error(error);
                Dispatched::ToHandleError
            },
            Dispatch::Ignored => Dispatched::Ignored,
            Dispatch::Ended => Dispatched::Ended,
        }
    }
}

impl<E> PlayerObject<E> {
    /// A running dispatcher for this session's events, to be fed from a
    /// subscription to this handle's endpoint.
    pub fn register_event_handler(&mut self) -> (dispatcher: EventDispatcher)
        ensures
            *final(self) == *old(self),
            dispatcher.guild_id() == old(self).guild(),
            dispatcher.running(),
    {
        EventDispatcher::new(self.guild_id())
    }
}

} // verus!
