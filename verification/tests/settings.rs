use ravalink::background::connector::{
    configure_kafka_ssl, consumer_config, consumer_config_in_group, producer_config,
    PUBLISH_TIMEOUT_SECS,
};
use ravalink::helpers::{get_timestamp, get_unix_timestamp, CORRELATION_ID_LEN};
use ravalink::{RavalinkConfig, SASLConfig, SSLConfig};
use rdkafka::config::ClientConfig;

fn ssl() -> SSLConfig {
    SSLConfig {
        ssl_key: "/etc/key.pem".to_string(),
        ssl_ca: "/etc/ca.pem".to_string(),
        ssl_cert: "/etc/cert.pem".to_string(),
    }
}

fn sasl() -> SASLConfig {
    SASLConfig { kafka_username: "user".to_string(), kafka_password: "secret".to_string() }
}

fn config(ssl: Option<SSLConfig>, sasl: Option<SASLConfig>) -> RavalinkConfig {
    RavalinkConfig { ssl, sasl, kafka_topic: "communication".to_string() }
}

fn pairs(config: &ClientConfig) -> Vec<(String, String)> {
    let mut all: Vec<(String, String)> =
        config.config_map().iter().map(|(k, v)| (k.clone(), v.clone())).collect();
    all.sort();
    all
}

fn owned(pairs: &[(&str, &str)]) -> Vec<(String, String)> {
    let mut all: Vec<(String, String)> =
        pairs.iter().map(|(k, v)| (k.to_string(), v.to_string())).collect();
    all.sort();
    all
}

#[test]
fn producer_without_credentials_sets_the_brokers_only() {
    let made = producer_config("kafka:9092", &config(None, None));
    assert_eq!(pairs(&made), owned(&[("bootstrap.servers", "kafka:9092")]));
}

#[test]
fn producer_with_tls() {
    let made = producer_config("kafka:9092", &config(Some(ssl()), None));
    assert_eq!(
        pairs(&made),
        owned(&[
            ("bootstrap.servers", "kafka:9092"),
            ("security.protocol", "ssl"),
            ("ssl.ca.location", "/etc/ca.pem"),
            ("ssl.certificate.location", "/etc/cert.pem"),
            ("ssl.key.location", "/etc/key.pem"),
        ])
    );
}

#[test]
fn producer_with_sasl() {
    let made = producer_config("kafka:9092", &config(None, Some(sasl())));
    assert_eq!(
        pairs(&made),
        owned(&[
            ("bootstrap.servers", "kafka:9092"),
            ("security.protocol", "SASL_PLAINTEXT"),
            ("sasl.mechanisms", "PLAIN"),
            ("sasl.username", "user"),
            ("sasl.password", "secret"),
        ])
    );
}

#[test]
fn tls_wins_over_sasl() {
    let made = producer_config("kafka:9092", &config(Some(ssl()), Some(sasl())));
    assert_eq!(made.get("security.protocol"), Some("ssl"));
    assert_eq!(made.get("ssl.ca.location"), Some("/etc/ca.pem"));
    assert_eq!(made.get("sasl.username"), None);
    assert_eq!(made.get("sasl.mechanisms"), None);
    assert_eq!(pairs(&made).len(), 5);
}

#[test]
fn consumer_without_credentials_talks_tls() {
    let made = consumer_config_in_group("kafka:9092", "group-1", &config(None, None));
    assert_eq!(
        pairs(&made),
        owned(&[
            ("group.id", "group-1"),
            ("bootstrap.servers", "kafka:9092"),
            ("enable.partition.eof", "false"),
            ("session.timeout.ms", "6000"),
            ("enable.auto.commit", "true"),
            ("security.protocol", "ssl"),
        ])
    );
}

#[test]
fn consumer_with_sasl_overrides_the_protocol() {
    let made = consumer_config_in_group("kafka:9092", "group-1", &config(None, Some(sasl())));
    assert_eq!(
        pairs(&made),
        owned(&[
            ("group.id", "group-1"),
            ("bootstrap.servers", "kafka:9092"),
            ("enable.partition.eof", "false"),
            ("session.timeout.ms", "6000"),
            ("enable.auto.commit", "true"),
            ("security.protocol", "SASL_PLAINTEXT"),
            ("sasl.mechanisms", "PLAIN"),
            ("sasl.username", "user"),
            ("sasl.password", "secret"),
        ])
    );
}

#[test]
fn consumer_with_tls() {
    let made = consumer_config_in_group("kafka:9092", "group-1", &config(Some(ssl()), None));
    assert_eq!(made.get("security.protocol"), Some("ssl"));
    assert_eq!(made.get("ssl.key.location"), Some("/etc/key.pem"));
    assert_eq!(made.get("ssl.certificate.location"), Some("/etc/cert.pem"));
    assert_eq!(made.get("ssl.ca.location"), Some("/etc/ca.pem"));
    assert_eq!(pairs(&made).len(), 9);
}

#[test]
fn consumer_joins_a_group_of_its_own() {
    let first = consumer_config("kafka:9092", &config(None, None));
    let second = consumer_config("kafka:9092", &config(None, None));
    let group = first.get("group.id").unwrap().to_string();
    assert_eq!(group.chars().count(), CORRELATION_ID_LEN);
    assert!(group.chars().all(|c| c == '_' || c == '-' || c.is_ascii_alphanumeric()));
    assert_ne!(first.get("group.id"), second.get("group.id"));
    assert_eq!(first.get("bootstrap.servers"), Some("kafka:9092"));
    assert_eq!(first.get("session.timeout.ms"), Some("6000"));
    assert_eq!(pairs(&first).len(), 6);
}

#[test]
fn security_is_laid_over_what_is_there() {
    let mut base = ClientConfig::new();
    base.set("security.protocol", "plaintext").set("client.id", "mine");
    let made = configure_kafka_ssl(base.clone(), &config(None, Some(sasl())));
    assert_eq!(made.get("security.protocol"), Some("SASL_PLAINTEXT"));
    assert_eq!(made.get("client.id"), Some("mine"));
    assert_eq!(pairs(&made).len(), 5);

    let untouched = configure_kafka_ssl(base.clone(), &config(None, None));
    assert_eq!(pairs(&untouched), pairs(&base));
}

#[test]
fn empty_credentials_are_set_as_they_are() {
    let blank = SASLConfig { kafka_username: String::new(), kafka_password: String::new() };
    let made = producer_config("", &config(None, Some(blank)));
    assert_eq!(made.get("bootstrap.servers"), Some(""));
    assert_eq!(made.get("sasl.username"), Some(""));
    assert_eq!(made.get("sasl.password"), Some(""));
}

#[test]
fn publishing_may_take_a_second() {
    assert_eq!(PUBLISH_TIMEOUT_SECS, 1);
}

#[test]
fn clock_reads_a_time_after_the_epoch() {
    let before = get_timestamp().unwrap();
    let elapsed = get_unix_timestamp().unwrap();
    let after = get_timestamp().unwrap();
    // Well after 2020, and the three readings are in order.
    assert!(before > 1_577_836_800);
    assert!(before <= elapsed.as_secs());
    assert!(elapsed.as_secs() <= after);
}
