//! The messages that travel between session handles, the background
//! processor and the bus, reduced to what the routing core reads.
//!
//! A [`Request`] is built here in full. Of a [`Response`] or an [`Event`] the
//! core reads the session, the correlation id and, for an event, whether it
//! reports an error; the rest of the message is carried through as bytes.

use vstd::prelude::*;

verus! {

/// A non-zero 64-bit identifier.
#[derive(Clone, Copy, PartialEq, Eq, Structural, Debug, Hash)]
pub struct NonZeroId {
    raw: u64,
}

/// Names one logical playback session.
pub type SessionId = NonZeroId;

/// Names the voice channel a session connects to.
pub type ChannelId = NonZeroId;

impl View for NonZeroId {
    type V = u64;

    closed spec fn view(&self) -> u64 {
        self.raw
    }
}

impl NonZeroId {
    #[verifier::type_invariant]
    spec fn nonzero(self) -> bool {
        self.raw != 0
    }

    /// The identifier with the given value, unless the value is zero.
    pub fn new(raw: u64) -> (id: Option<NonZeroId>)
        ensures
            raw == 0 <==> id is None,
            id matches Some(i) ==> i@ == raw,
    {
        if raw == 0 {
            None
        } else {
            Some(NonZeroId { raw })
        }
    }

    /// The identifier's value, which is never zero.
    pub fn get(&self) -> (raw: u64)
        ensures
            raw == self@,
            raw != 0,
    {
        proof {
            use_type_invariant(self);
        }
        self.raw
    }

    /// Two identifiers with the same value are the same identifier.
    pub proof fn view_is_injective(a: NonZeroId, b: NonZeroId)
        ensures
            a@ == b@ <==> a == b,
    {
    }
}

/// What a session asks of the worker that plays for it.
#[derive(Clone, Debug, PartialEq, Eq)]
pub enum Command {
    /// Join the given voice channel.
    Connect { voice_channel_id: ChannelId },
    /// Leave the voice channel and stop playing.
    Stop,
    /// Play the track found at `url`.
    Play { url: String },
    /// Set the playback level, an IEEE-754 single held as its bits.
    SetVolume { volume_bits: u32 },
    /// Turn looping of the current track on or off.
    Loop { enabled: bool },
    /// Jump to `position` milliseconds into the track.
    SeekToPosition { position: u64 },
    /// Continue a paused track.
    Resume,
    /// Pause the current track.
    Pause,
}

/// A command on its way to the workers.
#[derive(Clone, Debug, PartialEq, Eq)]
pub struct Request {
    /// Correlation id, minted by the caller.
    pub job_id: String,
    /// The session that asks.
    pub guild_id: SessionId,
    /// The voice channel the command is aimed at, where it has one.
    pub voice_channel_id: Option<ChannelId>,
    pub command: Command,
    /// Seconds since the Unix epoch at which the request was made.
    pub timestamp: u64,
}

/// A worker's answer to one request.
#[derive(Clone, Debug, PartialEq, Eq)]
pub struct Response {
    /// Correlation id of the request that is answered.
    pub job_id: String,
    /// The session that asked.
    pub guild_id: SessionId,
    /// The answer itself, as it came off the bus. Never read here.
    pub payload: Vec<u8>,
}

/// Whether an event reports a failure.
#[derive(Clone, Copy, PartialEq, Eq, Structural, Debug)]
pub enum EventType {
    ErrorOccurred,
    Other,
}

/// Something a worker reports about a session without having been asked.
#[derive(Clone, Debug, PartialEq, Eq)]
pub struct Event {
    /// Correlation id of the request the event belongs to.
    pub job_id: String,
    /// The session the event is about.
    pub guild_id: SessionId,
    pub event_type: EventType,
    /// The event's details, as they came off the bus. Never read here.
    pub payload: Vec<u8>,
}

/// One message of the protocol.
#[derive(Clone, Debug, PartialEq, Eq)]
pub enum Message {
    Request(Request),
    Response(Response),
    Event(Event),
    /// Heartbeat probe. Belongs to no session.
    Ping { id: String },
    /// Answer to the probe with the same id. Belongs to no session.
    Pong { id: String },
}

/// The five forms of a message.
#[derive(Clone, Copy, PartialEq, Eq, Structural, Debug)]
pub enum MessageKind {
    Request,
    Response,
    Event,
    Ping,
    Pong,
}

impl Message {
    /// The form of the message.
    pub open spec fn spec_kind(&self) -> MessageKind {
        match self {
            Message::Request(_) => MessageKind::Request,
            Message::Response(_) => MessageKind::Response,
            Message::Event(_) => MessageKind::Event,
            Message::Ping { .. } => MessageKind::Ping,
            Message::Pong { .. } => MessageKind::Pong,
        }
    }

    /// The session a message belongs to: that of a request, a response or an
    /// event. A ping or a pong has none.
    pub open spec fn session(&self) -> Option<SessionId> {
        match self {
            Message::Request(r) => Some(r.guild_id),
            Message::Response(r) => Some(r.guild_id),
            Message::Event(e) => Some(e.guild_id),
            Message::Ping { .. } => None,
            Message::Pong { .. } => None,
        }
    }

    /// The correlation id a message bears.
    pub open spec fn correlation(&self) -> Seq<char> {
        match self {
            Message::Request(r) => r.job_id@,
            Message::Response(r) => r.job_id@,
            Message::Event(e) => e.job_id@,
            Message::Ping { id } => id@,
            Message::Pong { id } => id@,
        }
    }

    #[verifier::when_used_as_spec(spec_kind)]
    pub fn kind(&self) -> (k: MessageKind)
        ensures
            k == self.spec_kind(),
    {
        match self {
            Message::Request(_) => MessageKind::Request,
            Message::Response(_) => MessageKind::Response,
            Message::Event(_) => MessageKind::Event,
            Message::Ping { .. } => MessageKind::Ping,
            Message::Pong { .. } => MessageKind::Pong,
        }
    }

    /// The session the message belongs to, if it belongs to one.
    pub fn get_guild_id(&self) -> (guild_id: Option<SessionId>)
        ensures
            guild_id == self.session(),
    {
        match self {
            Message::Response(r) => Some(r.guild_id),
            Message::Request(r) => Some(r.guild_id),
            Message::Event(e) => Some(e.guild_id),
            _ => None,
        }
    }

    /// The correlation id the message bears.
    pub fn correlation_id(&self) -> (id: &String)
        ensures
            id@ == self.correlation(),
    {
        match self {
            Message::Request(r) => &r.job_id,
            Message::Response(r) => &r.job_id,
            Message::Event(e) => &e.job_id,
            Message::Ping { id } => id,
            Message::Pong { id } => id,
        }
    }
}

} // verus!
