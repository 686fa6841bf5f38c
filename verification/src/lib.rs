//! Client-side routing core for issuing playback commands to a remote worker
//! fleet over a shared message bus.
//!
//! A caller holds a [`PlayerObject`] for each session. A command becomes a
//! request under a fresh correlation id; the request goes to the background
//! [`Processor`](background::processor::Processor), which registers the
//! session's endpoint and publishes the request; the response that comes back
//! over the bus is routed to that endpoint and resolves the wait that was
//! made with the request.
//!
//! Nothing here waits, sends or reads. Each part is a state machine that is
//! handed what happened and answers with what is to be done, so that the
//! caller's runtime does the waiting and the sending.

pub mod background;
pub mod config;
pub mod guarantees;
pub mod handlers;
pub mod helpers;
pub mod managers;
pub mod player;
pub mod protocol;

pub use crate::background::processor::{RavalinkIPC, RavalinkMessage};
pub use crate::config::{RavalinkConfig, SASLConfig, SSLConfig};
pub use crate::player::{PendingRequest, PlayerError, PlayerObject, ResponseWait, WaitStep};
