//! The settings of the two bus clients, worked out from a [`RavalinkConfig`].
//!
//! Creating a client from its settings, and what the client then does, is
//! left to the caller.

use crate::config::RavalinkConfig;
use crate::helpers::{fresh_correlation_id, is_correlation_id};
use rdkafka::config::ClientConfig;
use vstd::prelude::*;

verus! {

/// How long the publishing of one message may take, in seconds.
pub const PUBLISH_TIMEOUT_SECS: u64 = 1;

/// `rdkafka::config::ClientConfig`, the settings a bus client is created
/// from. Of what it holds, only the parameters are spoken of here.
#[verifier::external_type_specification]
#[verifier::external_body]
pub struct ExClientConfig(rdkafka::config::ClientConfig);

/// The parameters that a client configuration holds: each key that was set,
/// with the value it was last set to.
pub uninterp spec fn client_parameters(config: ClientConfig) -> Map<Seq<char>, Seq<char>>;

/// No parameter at all.
pub open spec fn no_parameters() -> Map<Seq<char>, Seq<char>> {
    Map::empty()
}

/// `ClientConfig::new`: a configuration in which no parameter is set.
#[verifier::external_body]
fn empty_client_config() -> (config: ClientConfig)
    ensures
        client_parameters(config) == no_parameters(),
{
    ClientConfig::new()
}

/// `ClientConfig::set`: `key` now has `value`, whether or not it had one
/// before, and every other parameter is as it was.
#[verifier::external_body]
fn set_parameter(config: &mut ClientConfig, key: &str, value: &str)
    ensures
        client_parameters(*final(config)) == client_parameters(*old(config)).insert(key@, value@),
{
    config.set(key, value);
}

/// `parameters` with the connection's security settings laid over them: those
/// of TLS where the configuration has them, else those of SASL where it has
/// those, else nothing.
pub open spec fn with_security(
    parameters: Map<Seq<char>, Seq<char>>,
    config: RavalinkConfig,
) -> Map<Seq<char>, Seq<char>> {
    match config.ssl {
        Some(ssl) => parameters.insert("security.protocol"@, "ssl"@).insert(
            "ssl.ca.location"@,
            ssl.ssl_ca@,
        ).insert("ssl.certificate.location"@, ssl.ssl_cert@).insert(
            "ssl.key.location"@,
            ssl.ssl_key@,
        ),
        None => match config.sasl {
            Some(sasl) => parameters.insert("security.protocol"@, "SASL_PLAINTEXT"@).insert(
                "sasl.mechanisms"@,
                "PLAIN"@,
            ).insert("sasl.username"@, sasl.kafka_username@).insert(
                "sasl.password"@,
                sasl.kafka_password@,
            ),
            None => parameters,
        },
    }
}

/// What every producer sets before security: the brokers to start from.
pub open spec fn producer_parameters(broker: Seq<char>) -> Map<Seq<char>, Seq<char>> {
    no_parameters().insert("bootstrap.servers"@, broker)
}

/// What every consumer sets before security. A consumer talks TLS unless the
/// security settings say otherwise.
pub open spec fn consumer_parameters(brokers: Seq<char>, group_id: Seq<char>) -> Map<
    Seq<char>,
    Seq<char>,
> {
    no_parameters().insert("group.id"@, group_id).insert(
        "bootstrap.servers"@,
        brokers,
    ).insert("enable.partition.eof"@, "false"@).insert("session.timeout.ms"@, "6000"@).insert(
        "enable.auto.commit"@,
        "true"@,
    ).insert("security.protocol"@, "ssl"@)
}

/// Lays the security settings of `config` over `kafka_config`.
pub fn configure_kafka_ssl(kafka_config: ClientConfig, config: &RavalinkConfig) -> (configured:
    ClientConfig)
    ensures
        client_parameters(configured) == with_security(client_parameters(kafka_config), *config),
{
    let mut kafka_config = kafka_config;
    match &config.ssl {
        Some(ssl) => {
            set_parameter(&mut kafka_config, "security.protocol", "ssl");
            set_parameter(&mut kafka_config, "ssl.ca.location", ssl.ssl_ca.as_str());
            set_parameter(&mut kafka_config, "ssl.certificate.location", ssl.ssl_cert.as_str());
            set_parameter(&mut kafka_config, "ssl.key.location", ssl.ssl_key.as_str());
        },
        None => match &config.sasl {
            Some(sasl) => {
                set_parameter(&mut kafka_config, "security.protocol", "SASL_PLAINTEXT");
                set_parameter(&mut kafka_config, "sasl.mechanisms", "PLAIN");
                set_parameter(&mut kafka_config, "sasl.username", sasl.kafka_username.as_str());
                set_parameter(&mut kafka_config, "sasl.password", sasl.kafka_password.as_str());
            },
            None => {},
        },
    }
    kafka_config
}

/// The settings of the client that publishes to the bus.
pub fn producer_config(broker: &str, config: &RavalinkConfig) -> (kafka_config: ClientConfig)
    ensures
        client_parameters(kafka_config) == with_security(producer_parameters(broker@), *config),
{
    let mut kafka_config = empty_client_config();
    set_parameter(&mut kafka_config, "bootstrap.servers", broker);
    configure_kafka_ssl(kafka_config, config)
}

/// The settings of a client that reads the bus as a member of the consumer
/// group `group_id`.
pub fn consumer_config_in_group(brokers: &str, group_id: &str, config: &RavalinkConfig) -> (kafka_config:
    ClientConfig)
    ensures
        client_parameters(kafka_config) == with_security(
            consumer_parameters(brokers@, group_id@),
            *config,
        ),
{
    let mut kafka_config = empty_client_config();
    set_parameter(&mut kafka_config, "group.id", group_id);
    set_parameter(&mut kafka_config, "bootstrap.servers", brokers);
    set_parameter(&mut kafka_config, "enable.partition.eof", "false");
    set_parameter(&mut kafka_config, "session.timeout.ms", "6000");
    set_parameter(&mut kafka_config, "enable.auto.commit", "true");
    set_parameter(&mut kafka_config, "security.protocol", "ssl");
    configure_kafka_ssl(kafka_config, config)
}

/// The settings of the client that reads the bus. It joins a consumer group
/// of its own, under a freshly minted name, so that it sees every message.
pub fn consumer_config(brokers: &str, config: &RavalinkConfig) -> (kafka_config: ClientConfig)
    ensures
        exists|group_id: Seq<char>|
            is_correlation_id(group_id) && client_parameters(kafka_config) == with_security(
                #[trigger] consumer_parameters(brokers@, group_id),
                *config,
            ),
{
    let group_id = fresh_correlation_id();
    consumer_config_in_group(brokers, group_id.as_str(), config)
}

} // verus!
