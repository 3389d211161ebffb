//! Failure taxonomy: bus-level faults, faults of the LED driver facade, and
//! the one unrecoverable startup fault (no clock).

use vstd::prelude::*;

verus! {

/// A failure of a single transaction on the shared peripheral bus.
#[derive(Clone, Copy, Debug, PartialEq, Eq, Structural)]
pub enum BusError {
    /// The addressed peripheral did not acknowledge the transfer.
    Nack,
    /// The transfer did not complete in time.
    Timeout,
}

/// A failure of an LED driver facade operation.
#[derive(Clone, Copy, Debug, PartialEq, Eq, Structural)]
pub enum DriverError {
    /// The underlying bus transaction failed.
    Bus(BusError),
    /// The requested channel index is outside the 36-channel array.
    InvalidChannel,
}

/// The unrecoverable startup fault: the real-time clock gave no reading, so
/// no time source exists and startup must halt.
#[derive(Clone, Copy, Debug, PartialEq, Eq, Structural)]
pub enum BootstrapError {
    ClockUnavailable(BusError),
}

} // verus!
