//! What runs behind the session handles: the processor that routes, and the
//! settings of the bus clients it talks through.

pub mod connector;
pub mod processor;
