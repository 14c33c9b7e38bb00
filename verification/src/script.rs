//! Scripts: the steps of a conversation with the chip, written down before
//! the first byte moves.

use vstd::prelude::*;
use crate::bits::{merge_bits, merged};
use crate::bus::BusRequest;

verus! {

/// One step of a script. A step is one request on the bus; `Poll` repeats
/// its request until the chip answers as wanted.
#[derive(Clone, Copy, Debug, PartialEq, Eq, Structural)]
pub enum Instr {
    /// Address the device.
    Select { address: u16 },
    /// Read a register into the accumulator.
    Load { register: u8 },
    /// Read a register and drop the byte.
    Probe { register: u8 },
    /// Read a register and append the byte to the samples.
    Sample { register: u8 },
    /// Write `(accumulator & keep) | set` to a register.
    Store { register: u8, keep: u8, set: u8 },
    /// Read a register until the byte has a bit of `mask`, leaving the bus
    /// alone for `pause_ms` milliseconds after each byte that has none.
    Poll { register: u8, mask: u8, pause_ms: u64 },
}

impl Instr {
    /// The request this step puts on the bus when the accumulator holds `acc`.
    pub open spec fn request(self, acc: u8) -> BusRequest {
        match self {
            Instr::Select { address } => BusRequest::SelectAddress { address },
            Instr::Load { register } => BusRequest::ReadByte { register },
            Instr::Probe { register } => BusRequest::ReadByte { register },
            Instr::Sample { register } => BusRequest::ReadByte { register },
            Instr::Store { register, keep, set } => BusRequest::WriteByte {
                register,
                value: merge_bits(acc, keep, set),
            },
            Instr::Poll { register, mask, pause_ms } => BusRequest::ReadByte { register },
        }
    }

    /// Whether this step reads a byte.
    pub open spec fn reads(self) -> bool {
        !(self is Select) && !(self is Store)
    }

    /// The step that writes `value` to `register`, whatever the accumulator
    /// holds.
    pub open spec fn write(register: u8, value: u8) -> Instr {
        Instr::Store { register, keep: 0, set: value }
    }

    /// The step that writes `value` to `register`.
    pub fn new_write(register: u8, value: u8) -> (r: Instr)
        ensures
            r == Instr::write(register, value),
    {
        Instr::Store { register, keep: 0, set: value }
    }

    /// The request this step puts on the bus when the accumulator holds
    /// `acc`.
    pub fn to_request(&self, acc: u8) -> (r: BusRequest)
        ensures
            r == self.request(acc),
    {
        match *self {
            Instr::Select { address } => BusRequest::SelectAddress { address },
            Instr::Load { register } => BusRequest::ReadByte { register },
            Instr::Probe { register } => BusRequest::ReadByte { register },
            Instr::Sample { register } => BusRequest::ReadByte { register },
            Instr::Store { register, keep, set } => BusRequest::WriteByte {
                register,
                value: merged(acc, keep, set),
            },
            Instr::Poll { register, mask: _, pause_ms: _ } => BusRequest::ReadByte { register },
        }
    }
}

/// Appends the steps of `tail` to `script`.
pub fn extend_script(script: &mut Vec<Instr>, tail: &Vec<Instr>)
    ensures
        final(script)@ == old(script)@ + tail@,
{
    let mut i: usize = 0;
    while i < tail.len()
        invariant
            i <= tail.len(),
            script@ == old(script)@ + tail@.subrange(0, i as int),
        decreases tail.len() - i,
    {
        script.push(tail[i]);
        i = i + 1;
    }
}

} // verus!
