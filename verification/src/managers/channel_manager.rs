//! Joining and leaving a voice channel.

use crate::player::{PendingRequest, PlayerObject};
use crate::protocol::{ChannelId, Command};
use vstd::prelude::*;

verus! {

impl<E: Clone> PlayerObject<E> {
    /// The request to join `voice_channel_id`, made at `timestamp`.
    pub fn connect(&mut self, voice_channel_id: ChannelId, timestamp: u64) -> (pending:
        PendingRequest<E>)
        ensures
            *final(self) == *old(self),
            old(self).has_sent(
                pending,
                timestamp,
                Command::Connect { voice_channel_id },
                Some(voice_channel_id),
            ),
    {
        self.send_request_with_response(
            Command::Connect { voice_channel_id },
            Some(voice_channel_id),
            timestamp,
        )
    }

    /// The request to leave the voice channel, made at `timestamp`.
    pub fn stop(&self, timestamp: u64) -> (pending: PendingRequest<E>)
        ensures
            self.has_sent(pending, timestamp, Command::Stop, None),
    {
        self.send_request_with_response(Command::Stop, None, timestamp)
    }
}

} // verus!
