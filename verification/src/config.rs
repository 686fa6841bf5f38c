//! How to reach the bus: the topic, and the credentials of the connection.

use vstd::prelude::*;

verus! {

/// Where the files of a TLS connection to the bus are found.
#[derive(Clone, Debug)]
pub struct SSLConfig {
    pub ssl_key: String,
    pub ssl_ca: String,
    pub ssl_cert: String,
}

/// The credentials of a SASL connection to the bus.
#[derive(Clone, Debug)]
pub struct SASLConfig {
    pub kafka_username: String,
    pub kafka_password: String,
}

/// What a deployment sets. Where both `ssl` and `sasl` are given, `ssl` is
/// used.
#[derive(Clone, Debug)]
pub struct RavalinkConfig {
    pub ssl: Option<SSLConfig>,
    pub sasl: Option<SASLConfig>,
    /// The one topic that traffic in both directions goes through.
    pub kafka_topic: String,
}

} // verus!
