//! Core of an NSQ TCP-protocol client.
//!
//! The crate covers the wire codec for every protocol command, the decoding
//! of inbound frames, a framed reader over raw byte chunks, the configuration
//! model with its JSON rendering, the connection handshake engine, and the
//! producer and consumer logic that turns frames into actions.

pub mod auth;
pub mod client;
pub mod codec;
pub mod consumer;
pub mod config;
pub mod error;
pub mod frame;
pub mod handshake;
pub mod json;
pub mod laws;
pub mod msg;
pub mod publish;
pub mod reader;
pub mod response;
pub mod wire;
