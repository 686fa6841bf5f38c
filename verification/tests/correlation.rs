use ravalink::background::processor::{
    BusInput, Delivery, Outbound, Processor, RavalinkIPC, RavalinkMessage, Received,
};
use ravalink::protocol::{
    ChannelId, Command, Event, EventType, Message, NonZeroId, Request, Response, SessionId,
};
use ravalink::{PendingRequest, PlayerError, PlayerObject, ResponseWait, WaitStep};

fn id(raw: u64) -> SessionId {
    NonZeroId::new(raw).unwrap()
}

fn channel(raw: u64) -> ChannelId {
    NonZeroId::new(raw).unwrap()
}

fn response(session: u64, job: &str) -> Message {
    Message::Response(Response { job_id: job.to_string(), guild_id: id(session), payload: vec![7] })
}

fn brought(message: Message) -> Received<&'static str> {
    Received::Envelope(RavalinkIPC::create_server_response(message))
}

fn player(session: u64) -> PlayerObject<&'static str> {
    PlayerObject::new(id(session), "own").unwrap()
}

fn is_id_char(c: char) -> bool {
    c == '_' || c == '-' || c.is_ascii_digit() || c.is_ascii_lowercase() || c.is_ascii_uppercase()
}

/// The request inside a pending request, after checking everything around it.
fn request_of(pending: &PendingRequest<&'static str>, session: u64) -> Request {
    let RavalinkIPC::Message(RavalinkMessage { message, guild_id, response_tx }) =
        &pending.envelope;
    assert_eq!(*guild_id, Some(id(session)));
    assert_eq!(*response_tx, Some("own"));
    assert!(pending.wait.is_pending());
    match message {
        Message::Request(request) => {
            assert_eq!(request.guild_id, id(session));
            assert_eq!(request.job_id.chars().count(), 21);
            assert!(request.job_id.chars().all(is_id_char));
            request.clone()
        }
        other => panic!("expected a request, got {:?}", other),
    }
}

#[test]
fn new_handle_holds_session_and_endpoint() {
    let handle = PlayerObject::new(id(42), "own").unwrap();
    assert_eq!(handle.guild_id(), id(42));
    assert_eq!(*handle.tx(), "own");
}

#[test]
fn end_to_end_connect_returns_matching_response() {
    // Session 42 sends Connect(channel = 7) under the correlation id cid1.
    let handle = player(42);
    let PendingRequest { envelope, mut wait } = handle.request(
        "cid1".to_string(),
        1_700_000_000,
        Command::Connect { voice_channel_id: channel(7) },
        Some(channel(7)),
    );
    assert_eq!(wait.on_sent(true), WaitStep::Pending);

    // The processor registers 42 -> endpoint and publishes the request.
    let mut processor: Processor<&'static str> = Processor::new();
    assert!(envelope.is_routable());
    let published = processor.on_ipc(Received::Envelope(envelope));
    assert_eq!(
        published,
        Outbound::Publish(Message::Request(Request {
            job_id: "cid1".to_string(),
            guild_id: id(42),
            voice_channel_id: Some(channel(7)),
            command: Command::Connect { voice_channel_id: channel(7) },
            timestamp: 1_700_000_000,
        }))
    );
    assert_eq!(processor.routing_table().lookup(id(42)), Some(&"own"));

    // A response with session 42 and correlation id cid1 comes off the bus.
    let delivery = processor.on_bus(BusInput::Decoded(response(42, "cid1")));
    let envelope = match delivery {
        Delivery::Session { endpoint, envelope } => {
            assert_eq!(*endpoint, "own");
            envelope
        }
        other => panic!("expected a delivery to session 42, got {:?}", other),
    };

    // The wait returns that response.
    assert_eq!(wait.on_event(Received::Envelope(envelope)), WaitStep::Resolved(response(42, "cid1")));
    assert!(!wait.is_pending());
}

#[test]
fn wait_is_made_pending() {
    let handle = player(42);
    let wait = handle.wait_for_response("cid".to_string(), id(42));
    assert!(wait.is_pending());
    assert!(ResponseWait::new("cid".to_string(), id(42)).is_pending());
}

#[test]
fn wait_passes_over_what_is_not_its_response() {
    let mut wait = ResponseWait::new("cid1".to_string(), id(42));
    // Another correlation id.
    assert_eq!(wait.on_event(brought(response(42, "cid2"))), WaitStep::Pending);
    // Another session.
    assert_eq!(wait.on_event(brought(response(43, "cid1"))), WaitStep::Pending);
    // Not a response.
    let event = Message::Event(Event {
        job_id: "cid1".to_string(),
        guild_id: id(42),
        event_type: EventType::Other,
        payload: vec![],
    });
    assert_eq!(wait.on_event(brought(event)), WaitStep::Pending);
    let request = Message::Request(Request {
        job_id: "cid1".to_string(),
        guild_id: id(42),
        voice_channel_id: None,
        command: Command::Stop,
        timestamp: 0,
    });
    assert_eq!(wait.on_event(brought(request)), WaitStep::Pending);
    assert_eq!(wait.on_event(brought(Message::Pong { id: "cid1".to_string() })), WaitStep::Pending);
    assert!(wait.is_pending());
    // Its own response still resolves it.
    assert_eq!(wait.on_event(brought(response(42, "cid1"))), WaitStep::Resolved(response(42, "cid1")));
}

#[test]
fn wait_looks_at_the_response_not_at_the_envelope() {
    let mut wait = ResponseWait::new("cid1".to_string(), id(42));
    let mistagged: Received<&'static str> = Received::Envelope(RavalinkIPC::Message(RavalinkMessage {
        message: response(42, "cid1"),
        guild_id: None,
        response_tx: None,
    }));
    assert_eq!(wait.on_event(mistagged), WaitStep::Resolved(response(42, "cid1")));
}

#[test]
fn closed_endpoint_fails_the_wait() {
    let mut wait = ResponseWait::new("cid1".to_string(), id(42));
    assert_eq!(
        wait.on_event::<&'static str>(Received::Closed),
        WaitStep::Failed(PlayerError::FailedToReceiveIPCResponse)
    );
    assert!(!wait.is_pending());
    assert_eq!(wait.on_event(brought(response(42, "cid1"))), WaitStep::Finished);
}

#[test]
fn lagging_subscription_fails_the_wait() {
    let mut wait = ResponseWait::new("cid1".to_string(), id(42));
    assert_eq!(
        wait.on_event::<&'static str>(Received::Lagged),
        WaitStep::Failed(PlayerError::FailedToReceiveIPCResponse)
    );
    assert!(!wait.is_pending());
}

#[test]
fn request_that_is_not_taken_fails_the_wait() {
    let mut wait = ResponseWait::new("cid1".to_string(), id(42));
    assert_eq!(wait.on_sent(false), WaitStep::Failed(PlayerError::FailedToSendIPCRequest));
    assert!(!wait.is_pending());
    assert_eq!(wait.on_sent(true), WaitStep::Finished);
    assert_eq!(wait.on_event(brought(response(42, "cid1"))), WaitStep::Finished);
}

#[test]
fn duplicate_delivery_resolves_the_wait_once() {
    let mut wait = ResponseWait::new("cid1".to_string(), id(42));
    assert_eq!(wait.on_event(brought(response(42, "cid1"))), WaitStep::Resolved(response(42, "cid1")));
    // The second delivery finds no waiter.
    assert_eq!(wait.on_event(brought(response(42, "cid1"))), WaitStep::Finished);
    assert_eq!(wait.on_event(brought(response(42, "cid1"))), WaitStep::Finished);
    assert!(!wait.is_pending());
}

#[test]
fn two_waits_are_resolved_each_by_its_own_response() {
    let mut first = ResponseWait::new("cid1".to_string(), id(42));
    let mut second = ResponseWait::new("cid2".to_string(), id(42));
    assert_eq!(first.on_event(brought(response(42, "cid2"))), WaitStep::Pending);
    assert_eq!(second.on_event(brought(response(42, "cid2"))), WaitStep::Resolved(response(42, "cid2")));
    assert_eq!(first.on_event(brought(response(42, "cid1"))), WaitStep::Resolved(response(42, "cid1")));
}

#[test]
fn request_is_built_from_its_parts() {
    let handle = player(42);
    let pending = handle.request("cid9".to_string(), 123, Command::Pause, None);
    assert_eq!(
        pending.envelope,
        RavalinkIPC::create_bot_request(
            Message::Request(Request {
                job_id: "cid9".to_string(),
                guild_id: id(42),
                voice_channel_id: None,
                command: Command::Pause,
                timestamp: 123,
            }),
            "own",
            id(42),
        )
    );
    let mut wait = pending.wait;
    assert_eq!(wait.on_event(brought(response(42, "cid9"))), WaitStep::Resolved(response(42, "cid9")));
}

#[test]
fn minted_correlation_ids_are_fresh_and_well_formed() {
    let handle = player(42);
    let first = request_of(&handle.send_request_with_response(Command::Stop, None, 1), 42);
    let second = request_of(&handle.send_request_with_response(Command::Stop, None, 1), 42);
    assert_ne!(first.job_id, second.job_id);
}

#[test]
fn wait_of_a_sent_request_is_for_the_minted_id() {
    let handle = player(42);
    let pending = handle.send_request_with_response(Command::Resume, None, 5);
    let request = request_of(&pending, 42);
    let mut wait = pending.wait;
    assert_eq!(wait.on_event(brought(response(42, "someone-else"))), WaitStep::Pending);
    assert_eq!(
        wait.on_event(brought(response(42, &request.job_id))),
        WaitStep::Resolved(response(42, &request.job_id))
    );
}

#[test]
fn connect_asks_for_the_channel() {
    let mut handle = player(42);
    let request = request_of(&handle.connect(channel(7), 1000), 42);
    assert_eq!(request.command, Command::Connect { voice_channel_id: channel(7) });
    assert_eq!(request.voice_channel_id, Some(channel(7)));
    assert_eq!(request.timestamp, 1000);
    assert_eq!(handle.guild_id(), id(42));
}

#[test]
fn stop_asks_to_stop() {
    let request = request_of(&player(42).stop(1001), 42);
    assert_eq!(request.command, Command::Stop);
    assert_eq!(request.voice_channel_id, None);
    assert_eq!(request.timestamp, 1001);
}

#[test]
fn play_asks_for_the_url() {
    let mut handle = player(42);
    let request = request_of(&handle.play("https://example.org/track".to_string(), 1002), 42);
    assert_eq!(request.command, Command::Play { url: "https://example.org/track".to_string() });
    assert_eq!(request.voice_channel_id, None);
    assert_eq!(request.timestamp, 1002);
}

#[test]
fn set_volume_carries_the_level() {
    let request = request_of(&player(42).set_volume(0.5f32.to_bits(), 1003), 42);
    assert_eq!(request.command, Command::SetVolume { volume_bits: 0x3f00_0000 });
    match request.command {
        Command::SetVolume { volume_bits } => assert_eq!(f32::from_bits(volume_bits), 0.5),
        other => panic!("expected a volume, got {:?}", other),
    }
    assert_eq!(request.timestamp, 1003);
}

#[test]
fn loop_song_turns_looping_on_and_off() {
    let on = request_of(&player(42).loop_song(true, 1004), 42);
    assert_eq!(on.command, Command::Loop { enabled: true });
    let off = request_of(&player(42).loop_song(false, 1004), 42);
    assert_eq!(off.command, Command::Loop { enabled: false });
    assert_eq!(on.voice_channel_id, None);
}

#[test]
fn seek_sends_milliseconds() {
    let request = request_of(&player(42).seek(90_500, 1005), 42);
    assert_eq!(request.command, Command::SeekToPosition { position: 90_500 });
    let zero = request_of(&player(42).seek(0, 1005), 42);
    assert_eq!(zero.command, Command::SeekToPosition { position: 0 });
    let most = request_of(&player(42).seek(u64::MAX as u128, 1005), 42);
    assert_eq!(most.command, Command::SeekToPosition { position: u64::MAX });
}

#[test]
fn seek_keeps_the_low_64_bits() {
    let beyond = (1u128 << 64) + 5;
    let request = request_of(&player(42).seek(beyond, 1005), 42);
    assert_eq!(request.command, Command::SeekToPosition { position: 5 });
    let all = request_of(&player(42).seek(u128::MAX, 1005), 42);
    assert_eq!(all.command, Command::SeekToPosition { position: u64::MAX });
}

#[test]
fn resume_and_pause() {
    assert_eq!(request_of(&player(42).resume(1006), 42).command, Command::Resume);
    assert_eq!(request_of(&player(42).pause(1007), 42).command, Command::Pause);
}
