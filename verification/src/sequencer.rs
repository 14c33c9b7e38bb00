//! The sequencer walks a script one bus request at a time.

use vstd::prelude::*;
use crate::bits::{any_bit, has_any_bit};
use crate::bus::{BusReply, BusRequest, DriverError};
use crate::script::Instr;

verus! {

/// The state of a sequencer, as contracts see it.
pub struct Machine {
    /// The script being walked.
    pub script: Seq<Instr>,
    /// Index of the step whose request is pending.
    pub pc: nat,
    /// The byte that the last `Load` read.
    pub acc: u8,
    /// The bytes that `Sample` steps read, oldest first.
    pub samples: Seq<u8>,
    /// The delay that is pending in place of the step's own request.
    pub pause: Option<u64>,
    /// Why the walk was given up.
    pub failure: Option<DriverError>,
}

impl Machine {
    /// The machine before the first request of `script`.
    pub open spec fn boot(script: Seq<Instr>) -> Machine {
        Machine { script, pc: 0, acc: 0, samples: Seq::empty(), pause: None, failure: None }
    }

    /// A request is pending.
    pub open spec fn running(self) -> bool {
        self.failure is None && self.pc < self.script.len()
    }

    /// Every step of the script was answered.
    pub open spec fn completed(self) -> bool {
        self.failure is None && self.pc >= self.script.len()
    }

    /// The step at `pc`.
    pub open spec fn current(self) -> Instr {
        self.script[self.pc as int]
    }

    /// The next `count` steps, the one at `pc` first.
    pub open spec fn upcoming(self, count: nat) -> Seq<Instr> {
        self.script.subrange(self.pc as int, (self.pc + count) as int)
    }

    /// `None` while a request is pending, then how the walk ended.
    pub open spec fn outcome(self) -> Option<Result<(), DriverError>> {
        match self.failure {
            Some(e) => Some(Err(e)),
            None => if self.pc < self.script.len() {
                None
            } else {
                Some(Ok(()))
            },
        }
    }

    /// The request that is pending.
    pub open spec fn request(self) -> Option<BusRequest> {
        if !self.running() {
            None
        } else {
            match self.pause {
                Some(millis) => Some(BusRequest::Delay { millis }),
                None => Some(self.current().request(self.acc)),
            }
        }
    }

    /// The machine with the step at `pc` behind it.
    pub open spec fn advanced(self) -> Machine {
        Machine { pc: self.pc + 1, ..self }
    }

    /// The machine given up for `error`.
    pub open spec fn failed(self, error: DriverError) -> Machine {
        Machine { failure: Some(error), ..self }
    }

    /// The machine after `reply` has answered the pending request. A machine
    /// with no pending request stays as it is.
    pub open spec fn step(self, reply: BusReply) -> Machine {
        if !self.running() {
            self
        } else {
            match reply {
                BusReply::Failed => self.failed(DriverError::Transport),
                BusReply::Done => match self.pause {
                    Some(_) => Machine { pause: None, ..self },
                    None => if self.current().reads() {
                        self.failed(DriverError::UnexpectedReply)
                    } else {
                        self.advanced()
                    },
                },
                BusReply::Byte { value } => match self.pause {
                    Some(_) => self.failed(DriverError::UnexpectedReply),
                    None => match self.current() {
                        Instr::Load { register } => Machine { acc: value, ..self.advanced() },
                        Instr::Probe { register } => self.advanced(),
                        Instr::Sample { register } => Machine {
                            samples: self.samples.push(value),
                            ..self.advanced()
                        },
                        Instr::Poll { register, mask, pause_ms } => if any_bit(value, mask) {
                            self.advanced()
                        } else {
                            Machine { pause: Some(pause_ms), ..self }
                        },
                        Instr::Select { address } => self.failed(DriverError::UnexpectedReply),
                        Instr::Store { register, keep, set } => self.failed(
                            DriverError::UnexpectedReply,
                        ),
                    },
                },
            }
        }
    }

    /// The machine after it has taken `replies`, one after the other.
    pub open spec fn feed(self, replies: Seq<BusReply>) -> Machine
        decreases replies.len(),
    {
        if replies.len() == 0 {
            self
        } else {
            self.step(replies[0]).feed(replies.drop_first())
        }
    }

    /// The requests that `replies` answer: the pending one, then the one
    /// that each reply but the last makes pending, to the end of `replies`
    /// or to where no request is pending any more.
    pub open spec fn asks(self, replies: Seq<BusReply>) -> Seq<BusRequest>
        decreases replies.len(),
    {
        if replies.len() == 0 {
            Seq::empty()
        } else {
            match self.request() {
                None => Seq::empty(),
                Some(request) => seq![request] + self.step(replies[0]).asks(
                    replies.drop_first(),
                ),
            }
        }
    }
}

/// Walks a script: it names the request that is due, takes the reply, and
/// names the next one, until the script is done or a request has failed.
/// It never waits and never touches the bus, so a walk can be given up
/// between any two requests by not going on with it.
pub struct Sequencer {
    script: Vec<Instr>,
    pc: usize,
    acc: u8,
    samples: Vec<u8>,
    pause: Option<u64>,
    failure: Option<DriverError>,
}

impl View for Sequencer {
    type V = Machine;

    closed spec fn view(&self) -> Machine {
        Machine {
            script: self.script@,
            pc: self.pc as nat,
            acc: self.acc,
            samples: self.samples@,
            pause: self.pause,
            failure: self.failure,
        }
    }
}

impl Sequencer {
    /// A sequencer at the start of `script`.
    pub fn new(script: Vec<Instr>) -> (s: Sequencer)
        ensures
            s@ == Machine::boot(script@),
    {
        Sequencer { script, pc: 0, acc: 0, samples: Vec::new(), pause: None, failure: None }
    }

    /// The request that is due, or `None` when nothing is left to do.
    pub fn request(&self) -> (r: Option<BusRequest>)
        ensures
            r == self@.request(),
    {
        if self.failure.is_some() || self.pc >= self.script.len() {
            None
        } else {
            match self.pause {
                Some(millis) => Some(BusRequest::Delay { millis }),
                None => Some(self.script[self.pc].to_request(self.acc)),
            }
        }
    }

    /// Takes the reply to the request that was due and returns the next one.
    pub fn step(&mut self, reply: BusReply) -> (next: Option<BusRequest>)
        ensures
            final(self)@ == old(self)@.step(reply),
            next == final(self)@.request(),
    {
        if self.failure.is_none() && self.pc < self.script.len() {
            let instr = self.script[self.pc];
            match reply {
                BusReply::Failed => {
                    self.failure = Some(DriverError::Transport);
                },
                BusReply::Done => {
                    if self.pause.is_some() {
                        self.pause = None;
                    } else {
                        match instr {
                            Instr::Select { .. } | Instr::Store { .. } => {
                                self.pc = self.pc + 1;
                            },
                            _ => {
                                self.failure = Some(DriverError::UnexpectedReply);
                            },
                        }
                    }
                },
                BusReply::Byte { value } => {
                    if self.pause.is_some() {
                        self.failure = Some(DriverError::UnexpectedReply);
                    } else {
                        match instr {
                            Instr::Load { .. } => {
                                self.acc = value;
                                self.pc = self.pc + 1;
                            },
                            Instr::Probe { .. } => {
                                self.pc = self.pc + 1;
                            },
                            Instr::Sample { .. } => {
                                self.samples.push(value);
                                self.pc = self.pc + 1;
                            },
                            Instr::Poll { register: _, mask, pause_ms } => {
                                if has_any_bit(value, mask) {
                                    self.pc = self.pc + 1;
                                } else {
                                    self.pause = Some(pause_ms);
                                }
                            },
                            _ => {
                                self.failure = Some(DriverError::UnexpectedReply);
                            },
                        }
                    }
                },
            }
        }
        self.request()
    }

    /// `None` while a request is due, then how the walk ended.
    pub fn outcome(&self) -> (r: Option<Result<(), DriverError>>)
        ensures
            r == self@.outcome(),
    {
        match self.failure {
            Some(e) => Some(Err(e)),
            None => if self.pc < self.script.len() {
                None
            } else {
                Some(Ok(()))
            },
        }
    }

    /// The bytes that `Sample` steps have read so far, oldest first.
    pub fn samples(&self) -> (r: &Vec<u8>)
        ensures
            r@ == self@.samples,
    {
        &self.samples
    }
}

} // verus!
