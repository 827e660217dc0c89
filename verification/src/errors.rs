//! What a failed operation on a channel reports.

use vstd::prelude::*;

verus! {

/// The operations that write to a control file.
#[derive(Debug, Clone, Copy, PartialEq, Eq, Structural)]
pub enum Operation {
    /// Claiming the channel for use.
    Export,
    /// Giving the channel back.
    Unexport,
    /// Setting the period.
    Period,
    /// Switching the output on or off.
    State,
    /// Setting the duty cycle.
    DutyCycle,
}

/// A write that failed: which operation it belonged to, on which channel, and
/// the failure `cause` that the caller reported for it.
#[derive(Debug, PartialEq, Eq)]
pub struct Error<E> {
    pub operation: Operation,
    pub chip: u8,
    pub channel: u8,
    pub cause: E,
}

/// The result of an operation on channel `channel` of chip `chip` whose write
/// went as `written` says: success for a write that went through, and for one
/// that failed its cause together with the operation and the channel.
pub open spec fn reported<E>(operation: Operation, chip: u8, channel: u8, written: Result<(), E>)
    -> Result<(), Error<E>> {
    match written {
        Ok(_) => Ok(()),
        Err(cause) => Err(Error { operation, chip, channel, cause }),
    }
}

} // verus!
