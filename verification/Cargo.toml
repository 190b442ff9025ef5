[package]
name = "rumqtt_quic"
version = "0.1.0"
edition = "2021"
publish = false

[dependencies]
quinn = "0.10"
tokio = { version = "1", features = ["rt", "macros"] }
tokio-rustls = "0.24"
thiserror = "1"
serde = { version = "1", features = ["derive"] }
pprof = { version = "0.13", features = ["flamegraph", "prost-codec"] }
