//! Starting a track.

use crate::player::{PendingRequest, PlayerObject};
use crate::protocol::Command;
use vstd::prelude::*;

verus! {

impl<E: Clone> PlayerObject<E> {
    /// The request to play the track at `url`, made at `timestamp`.
    pub fn play(&mut self, url: String, timestamp: u64) -> (pending: PendingRequest<E>)
        ensures
            *final(self) == *old(self),
            old(self).has_sent(pending, timestamp, Command::Play { url }, None),
    {
        self.send_request_with_response(Command::Play { url }, None, timestamp)
    }
}

} // verus!
