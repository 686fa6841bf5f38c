//! What can be done to a track once it plays.

use crate::player::{PendingRequest, PlayerObject};
use crate::protocol::Command;
use vstd::prelude::*;

verus! {

/// A position given in milliseconds, as the 64 bits a request has room for.
pub open spec fn position_of(millis: u128) -> u64 {
    (millis % 0x1_0000_0000_0000_0000) as u64
}

impl<E: Clone> PlayerObject<E> {
    /// The request to set the playback level, made at `timestamp`. The level
    /// is an IEEE-754 single, given as its bits.
    pub fn set_volume(&self, volume_bits: u32, timestamp: u64) -> (pending: PendingRequest<E>)
        ensures
            self.has_sent(pending, timestamp, Command::SetVolume { volume_bits }, None),
    {
        self.send_request_with_response(Command::SetVolume { volume_bits }, None, timestamp)
    }

    /// The request to turn looping on or off, made at `timestamp`.
    pub fn loop_song(&self, enabled: bool, timestamp: u64) -> (pending: PendingRequest<E>)
        ensures
            self.has_sent(pending, timestamp, Command::Loop { enabled }, None),
    {
        self.send_request_with_response(Command::Loop { enabled }, None, timestamp)
    }

    /// The request to jump `millis` milliseconds into the track, made at
    /// `timestamp`. Of a position beyond 64 bits the low 64 bits are sent.
    pub fn seek(&self, millis: u128, timestamp: u64) -> (pending: PendingRequest<E>)
        ensures
            self.has_sent(
                pending,
                timestamp,
                Command::SeekToPosition { position: position_of(millis) },
                None,
            ),
    {
        let position: u64 = (millis % 0x1_0000_0000_0000_0000) as u64;
        self.send_request_with_response(Command::SeekToPosition { position }, None, timestamp)
    }

    /// The request to continue a paused track, made at `timestamp`.
    pub fn resume(&self, timestamp: u64) -> (pending: PendingRequest<E>)
        ensures
            self.has_sent(pending, timestamp, Command::Resume, None),
    {
        self.send_request_with_response(Command::Resume, None, timestamp)
    }

    /// The request to pause the track, made at `timestamp`.
    pub fn pause(&self, timestamp: u64) -> (pending: PendingRequest<E>)
        ensures
            self.has_sent(pending, timestamp, Command::Pause, None),
    {
        self.send_request_with_response(Command::Pause, None, timestamp)
    }
}

} // verus!
