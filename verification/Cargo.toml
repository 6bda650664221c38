[package]
name = "broker_ingest"
version = "0.1.0"
edition = "2021"
publish = false

[dependencies]
rumqttc = "0.24"
rand = "0.8"
chrono = "0.4"
