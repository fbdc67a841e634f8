//! The errors of capability calls.

use vstd::prelude::*;

verus! {

/// One of the three things a component may be able to do.
#[derive(Clone, Copy, Debug, PartialEq, Eq, Structural)]
pub enum Capability {
    /// Producing a snapshot of readings.
    Readings,
    /// Producing a summary of its state.
    Status,
    /// Accepting a command.
    Command,
}

/// An operational fault of a sensor. A state that a sensor is there to
/// report, such as an unreachable network, is data and not an error.
#[derive(Clone, Copy, Debug, PartialEq, Eq, Structural)]
pub enum SensorError {
    /// The system clock reads an instant before the epoch.
    ClockBeforeEpoch,
}

} // verus!
