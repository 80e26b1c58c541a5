//! Driver model for an 8-channel, 10-bit SPI analog-to-digital converter.
//!
//! The crate exposes a non-blocking session over a worker that owns the bus:
//! the caller polls state-typed handles while the worker performs the
//! blocking transactions and reports events back over rendezvous channels.

pub mod link;
pub mod session;
pub mod types;
pub mod worker;
