[package]
name = "ravalink"
version = "0.1.0"
edition = "2021"
publish = false

[dependencies]
async-trait = "0.1"
chrono = "0.4"
futures = "0.3"
lazy_static = "1"
log = "0.4"
nanoid = "0.4"
rdkafka = "0.36"
serde_json = "1"
snafu = "0.8"
tokio = { version = "1", features = ["macros", "rt-multi-thread", "sync", "time"] }
serenity = { version = "0.12", default-features = false, features = ["client", "gateway", "model", "rustls_backend"] }
