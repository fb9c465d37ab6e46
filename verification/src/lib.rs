//! Frame representation and transmit/receive adapter layer for a CAN
//! (Controller Area Network) peripheral.
//!
//! The crate models validated 11-bit and 29-bit identifiers, bounded
//! payloads, data and remote frames, and bridges a peripheral driver's
//! transmit mailbox and receive buffer onto a non-blocking and a blocking
//! frame-exchange interface.

pub mod can;
pub mod data;
pub mod errors;
pub mod frame;
pub mod id;
