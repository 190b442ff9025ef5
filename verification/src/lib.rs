//! QUIC transport for an MQTT client and broker: the connection and accept
//! handshakes as verified state machines, their error types, and the naming
//! of benchmark profile artefacts.

pub mod client;
pub mod outside;
pub mod report;
pub mod server;
