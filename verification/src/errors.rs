//! Error taxonomy of the adapter layer: transient unavailability, receive
//! overrun, and the statically impossible transmit failure.

use vstd::prelude::*;

verus! {

/// Signals that one or more received frames were lost because the caller
/// did not drain the receive buffer fast enough. Carries no finer detail.
#[derive(Clone, Copy, Debug, PartialEq, Eq)]
pub struct OverrunError;

/// The generic error categories this layer can report. Receive overrun is
/// the only condition it produces.
#[derive(Clone, Copy, Debug, PartialEq, Eq)]
pub enum ErrorKind {
    /// Received data was lost because the consumer did not keep up.
    Overrun,
}

impl OverrunError {
    /// Maps the overrun condition into the generic error taxonomy.
    pub fn kind(&self) -> (k: ErrorKind)
        ensures
            k == ErrorKind::Overrun,
    {
        ErrorKind::Overrun
    }
}

/// Transient unavailability: the operation could make no progress right
/// now and the caller should retry later. A normal outcome, not a failure.
/// Frame submission has no failure mode other than this, so the submit
/// channels carry `WouldBlock` alone — the "other failure" case is not a
/// runtime check but absent from the type.
#[derive(Clone, Copy, Debug, PartialEq, Eq)]
pub struct WouldBlock;

/// Outcome channel of a single non-blocking receive attempt: either the
/// operation would need to wait — a normal "retry later" signal, not a
/// failure — or it failed with `E`.
#[derive(Clone, Copy, Debug, PartialEq, Eq)]
pub enum NbError<E> {
    /// No progress was possible right now; the caller should retry later.
    WouldBlock,
    /// The operation failed.
    Other(E),
}

} // verus!
