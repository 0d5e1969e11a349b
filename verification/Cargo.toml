[package]
name = "kafka_consumer"
version = "0.1.0"
edition = "2021"
publish = false

[dependencies]
rdkafka-sys = { version = "*", default-features = false }
