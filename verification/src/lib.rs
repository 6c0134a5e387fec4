//! Protocol codec and connection logic for SP105E addressable LED strip
//! controllers, which are driven over a Bluetooth Low-Energy GATT link.
//!
//! The crate performs no I/O. Commands are turned into five-byte frames,
//! eight-byte status notifications into typed records, and the order of the
//! transport calls needed to exchange them is decided by a state machine
//! that a driver feeds with the outcome of each call.

/// Bluetooth addresses.
pub mod address;

/// The client state machine.
pub mod client;

/// The command codec.
pub mod codec;

/// Commands and their frames.
pub mod commands;

/// The search for the characteristic.
pub mod discovery;

/// Error values.
pub mod error;

/// GATT identifiers.
pub mod gatt;

/// Theorems about the client.
pub mod runs;

/// Color order and pixel type.
pub mod settings;

/// The status notification.
pub mod status;
