//! The vocabulary between the driver and whoever owns the bus.
//!
//! The driver never touches the bus. It names one primitive operation at a
//! time, the owner of the bus performs it and reports what came of it.

use vstd::prelude::*;

verus! {

/// One primitive operation on the bus.
#[derive(Clone, Copy, Debug, PartialEq, Eq, Structural)]
pub enum BusRequest {
    /// Address the device that the following operations go to.
    SelectAddress { address: u16 },
    /// Read one byte from a register.
    ReadByte { register: u8 },
    /// Write one byte to a register.
    WriteByte { register: u8, value: u8 },
    /// Leave the bus alone for this many milliseconds.
    Delay { millis: u64 },
}

/// What came of a request.
#[derive(Clone, Copy, Debug, PartialEq, Eq, Structural)]
pub enum BusReply {
    /// The address was selected, the byte was written, or the delay is over.
    Done,
    /// The byte that was read.
    Byte { value: u8 },
    /// The transport reported a failure.
    Failed,
}

/// Why an operation of the driver did not come to its end.
#[derive(Clone, Copy, Debug, PartialEq, Eq, Structural)]
pub enum DriverError {
    /// The measurement mode is neither 0 nor 1.
    InvalidMode,
    /// The transport failed on a request.
    Transport,
    /// The reply does not answer the request that was pending.
    UnexpectedReply,
}

} // verus!
