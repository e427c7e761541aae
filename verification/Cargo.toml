[package]
name = "opentron"
version = "0.1.0"
edition = "2021"
publish = false

[dependencies]
hex = "0.4"
rand = "0.8"
chrono = "0.4"
primitive-types = "*"
serde = { version = "1", features = ["derive"] }
serde_json = "1"
tokio = { version = "1", features = ["net", "sync", "rt", "macros"] }
futures = "0.3"
log = "0.4"
