//! What a caller can ask for: the commands of a session, and the heartbeat.

pub mod channel_manager;
pub mod default_manager;
pub mod player_manager;
pub mod track_manager;
