//! Codec and pairing logic for the Frisquet radio heating protocol.
//!
//! Frames exchanged between a boiler, its satellite thermostats and its
//! outdoor probes are decoded into typed messages and encoded back, byte for
//! byte; the pairing handshake of a new probe is a pure state machine whose
//! transport operations are carried out by the caller.

pub mod association;
pub mod bytes;
pub mod chaudiere;
pub mod common;
pub mod messages;
pub mod proto;
pub mod rf;
pub mod satellite;
pub mod serial;
pub mod sonde;
