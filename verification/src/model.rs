//! A register file on the bus, against which scripts and the sequencer can
//! be measured.
//!
//! The register file answers a read with the byte that was last written to
//! the register, as a chip does for its configuration registers. `effect`
//! says what a script comes to on it; `Rig` wires a sequencer to it, one
//! request at a time, and `theorem_run_is_effect` shows that both agree.

use vstd::prelude::*;
use crate::bits::{any_bit, merge_bits};
use crate::bus::{BusReply, BusRequest, DriverError};
use crate::script::Instr;
use crate::sequencer::Machine;

verus! {

/// A file of registers, one byte at each of the 256 addresses.
#[verifier::ext_equal]
pub struct RegisterFile {
    pub byte: spec_fn(u8) -> u8,
}

impl RegisterFile {
    /// The byte that `register` holds.
    pub open spec fn read(self, register: u8) -> u8 {
        (self.byte)(register)
    }

    /// The file with `value` in `register` and every other register as it
    /// was.
    pub open spec fn write(self, register: u8, value: u8) -> RegisterFile {
        RegisterFile {
            byte: |r: u8|
                if r == register {
                    value
                } else {
                    (self.byte)(r)
                },
        }
    }
}

/// What a conversation with a register file has come to.
#[verifier::ext_equal]
pub struct Bench {
    /// The byte that the last `Load` read.
    pub acc: u8,
    /// The bytes that `Sample` steps read, oldest first.
    pub samples: Seq<u8>,
    /// The byte each register holds.
    pub registers: RegisterFile,
    /// The requests that went over the bus, oldest first.
    pub traffic: Seq<BusRequest>,
}

/// What a register file answers to `request`.
pub open spec fn reply_of(registers: RegisterFile, request: BusRequest) -> BusReply {
    match request {
        BusRequest::ReadByte { register } => BusReply::Byte { value: registers.read(register) },
        _ => BusReply::Done,
    }
}

/// The register file after `request`.
pub open spec fn written(registers: RegisterFile, request: BusRequest) -> RegisterFile {
    match request {
        BusRequest::WriteByte { register, value } => registers.write(register, value),
        _ => registers,
    }
}

impl Bench {
    /// Whether the registers let `instr` pass at its first request.
    pub open spec fn ready_for(self, instr: Instr) -> bool {
        instr matches Instr::Poll { register, mask, pause_ms } ==> any_bit(
            self.registers.read(register),
            mask,
        )
    }

    /// The bench after `instr`, for a bench that is ready for it.
    pub open spec fn after(self, instr: Instr) -> Bench {
        let traffic = self.traffic.push(instr.request(self.acc));
        match instr {
            Instr::Load { register } => Bench { acc: self.registers.read(register), traffic, ..self },
            Instr::Sample { register } => Bench {
                samples: self.samples.push(self.registers.read(register)),
                traffic,
                ..self
            },
            Instr::Store { register, keep, set } => Bench {
                registers: self.registers.write(register, merge_bits(self.acc, keep, set)),
                traffic,
                ..self
            },
            _ => Bench { traffic, ..self },
        }
    }
}

/// The bench after the steps of `script`, in their order.
pub open spec fn effect(script: Seq<Instr>, bench: Bench) -> Bench
    decreases script.len(),
{
    if script.len() == 0 {
        bench
    } else {
        effect(script.drop_first(), bench.after(script[0]))
    }
}

/// Whether each `Poll` of `script` finds its bit at the first read.
pub open spec fn polls_met(script: Seq<Instr>, bench: Bench) -> bool
    decreases script.len(),
{
    script.len() == 0 || (bench.ready_for(script[0]) && polls_met(
        script.drop_first(),
        bench.after(script[0]),
    ))
}

/// A sequencer wired to a register file.
#[verifier::ext_equal]
pub struct Rig {
    pub machine: Machine,
    pub registers: RegisterFile,
    pub traffic: Seq<BusRequest>,
}

impl Rig {
    /// What the conversation has come to.
    pub open spec fn bench(self) -> Bench {
        Bench {
            acc: self.machine.acc,
            samples: self.machine.samples,
            registers: self.registers,
            traffic: self.traffic,
        }
    }

    /// The rig after the register file has served the pending request and
    /// the sequencer has taken the reply.
    pub open spec fn turn(self) -> Rig {
        match self.machine.request() {
            None => self,
            Some(request) => Rig {
                machine: self.machine.step(reply_of(self.registers, request)),
                registers: written(self.registers, request),
                traffic: self.traffic.push(request),
            },
        }
    }

    /// The rig after `turns` turns.
    pub open spec fn run(self, turns: nat) -> Rig
        decreases turns,
    {
        if turns == 0 {
            self
        } else {
            self.turn().run((turns - 1) as nat)
        }
    }
}

/// A script of one step has the effect of that step, and its poll is met
/// where the bench is ready for the step.
pub proof fn lemma_single_step(instr: Instr, bench: Bench)
    ensures
        effect(seq![instr], bench) == bench.after(instr),
        polls_met(seq![instr], bench) == bench.ready_for(instr),
{
    let script = seq![instr];
    assert(effect(script.drop_first(), bench.after(script[0])) == bench.after(instr));
    assert(polls_met(script.drop_first(), bench.after(script[0])));
}

/// A script of two steps has the effect of the one and then the other.
pub proof fn lemma_two_steps(first: Instr, second: Instr, bench: Bench)
    ensures
        effect(seq![first, second], bench) == bench.after(first).after(second),
{
    assert(seq![first, second] == seq![first] + seq![second]);
    lemma_effect_concat(seq![first], seq![second], bench);
    lemma_single_step(first, bench);
    lemma_single_step(second, bench.after(first));
}

/// After `a + b` the bench is where `b` takes it from where `a` left it.
pub proof fn lemma_effect_concat(a: Seq<Instr>, b: Seq<Instr>, bench: Bench)
    ensures
        effect(a + b, bench) == effect(b, effect(a, bench)),
    decreases a.len(),
{
    if a.len() > 0 {
        assert((a + b).drop_first() == a.drop_first() + b);
        lemma_effect_concat(a.drop_first(), b, bench.after(a[0]));
    }
}

/// The polls of `a + b` are met where those of `a` are, and those of `b`
/// after `a`.
pub proof fn lemma_polls_met_concat(a: Seq<Instr>, b: Seq<Instr>, bench: Bench)
    ensures
        polls_met(a + b, bench) == (polls_met(a, bench) && polls_met(b, effect(a, bench))),
    decreases a.len(),
{
    if a.len() > 0 {
        assert((a + b).drop_first() == a.drop_first() + b);
        lemma_polls_met_concat(a.drop_first(), b, bench.after(a[0]));
    }
}

/// A script without a `Poll` has all its polls met.
pub proof fn lemma_straight_polls_met(script: Seq<Instr>, bench: Bench)
    requires
        forall|i: int| 0 <= i < script.len() ==> !(#[trigger] script[i] is Poll),
    ensures
        polls_met(script, bench),
    decreases script.len(),
{
    if script.len() > 0 {
        let rest = script.drop_first();
        assert(forall|i: int| 0 <= i < rest.len() ==> !(#[trigger] rest[i] is Poll));
        lemma_straight_polls_met(rest, bench.after(script[0]));
    }
}

/// A sequencer wired to a register file walks `count` steps of its script in
/// `count` turns, and leaves the accumulator, the samples, the registers and
/// the traffic as `effect` says, where each `Poll` among those steps finds
/// its bit at the first read.
pub proof fn theorem_run_is_effect(rig: Rig, count: nat)
    requires
        rig.machine.failure is None,
        rig.machine.pause is None,
        rig.machine.pc + count <= rig.machine.script.len(),
        polls_met(rig.machine.upcoming(count), rig.bench()),
    ensures
        rig.run(count).bench() == effect(rig.machine.upcoming(count), rig.bench()),
        rig.run(count).machine == (Machine {
            pc: rig.machine.pc + count,
            acc: rig.run(count).machine.acc,
            samples: rig.run(count).machine.samples,
            ..rig.machine
        }),
    decreases count,
{
    let m = rig.machine;
    if count > 0 {
        assert(m.upcoming(count).drop_first() == m.advanced().upcoming((count - 1) as nat));
        theorem_run_is_effect(rig.turn(), (count - 1) as nat);
    }
}

/// A sequencer that starts on `script` against a register file, and finds
/// the bit of each `Poll` at the first read, is done after as many turns as
/// the script has steps, and has then brought about the effect of the
/// script.
pub proof fn theorem_script_on_register_file(
    script: Seq<Instr>,
    registers: RegisterFile,
    traffic: Seq<BusRequest>,
)
    requires
        polls_met(script, Rig { machine: Machine::boot(script), registers, traffic }.bench()),
    ensures
        ({
            let rig = Rig { machine: Machine::boot(script), registers, traffic };
            let end = rig.run(script.len());
            &&& end.machine.outcome() == Some(Ok::<(), DriverError>(()))
            &&& end.machine.request() is None
            &&& end.bench() == effect(script, rig.bench())
        }),
{
    let rig = Rig { machine: Machine::boot(script), registers, traffic };
    assert(rig.machine.upcoming(script.len()) == script);
    theorem_run_is_effect(rig, script.len());
}

} // verus!
