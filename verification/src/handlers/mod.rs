//! Handing a session's events to the caller.

pub mod default;
