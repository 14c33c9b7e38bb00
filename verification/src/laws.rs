//! What the operations of the driver do to a register file.

use vstd::prelude::*;
use crate::bits::{
    any_bit, flag_operands, lemma_merge_is_with_flag, lemma_with_flag, lemma_with_flag_apart,
    lemma_with_flag_reads_back, merge_bits, with_flag,
};
use crate::bus::{BusReply, BusRequest, DriverError};
use crate::driver::{
    again_script, astep_script, atime_script, await_measurement, channel_value, channel_values, config_script,
    control_leds_script, enable_leds_script, enable_script, enable_smux_script,
    enable_spectral_measure_script, flag_update, gain_code, get_channel_data_script, led_byte,
    init_script, led_current_code, lemma_channel_value, read_spectral_data_script,
    set_bank_script, start_measure_script, table_writes, PowerPolicy,
};
use crate::model::{
    effect, lemma_effect_concat, lemma_polls_met_concat, lemma_single_step,
    lemma_straight_polls_met, lemma_two_steps, polls_met, Bench,
};
use crate::registers::{
    AS7341_ADDR, AS7341_ASTEP_H, AS7341_ASTEP_L, AS7341_ATIME, AS7341_CFG_0, AS7341_CFG_1, AS7341_CFG_6,
    AS7341_CONFIG, AS7341_ENABLE, AS7341_LED, AS7341_STATUS_2, CFG_0_REG_BANK, CONFIG_INT_MODE,
    CONFIG_LED_SEL, ENABLE_PON, ENABLE_SMUXEN, ENABLE_SP_EN, INT_MODE_SPM, SMUX_CMD_WRITE,
    SMUX_F1F4_CLEAR_NIR, SMUX_F5F8_CLEAR_NIR, STATUS_2_AVALID,
};
use crate::sequencer::Machine;
use crate::script::Instr;

verus! {

/// The bench after `register` was read and `value` written back to it.
pub open spec fn rewritten(bench: Bench, register: u8, value: u8) -> Bench {
    Bench {
        acc: bench.registers.read(register),
        samples: bench.samples,
        registers: bench.registers.write(register, value),
        traffic: bench.traffic + seq![
            BusRequest::ReadByte { register },
            BusRequest::WriteByte { register, value },
        ],
    }
}

/// The bench after `value` was written to `register`.
pub open spec fn overwritten(bench: Bench, register: u8, value: u8) -> Bench {
    Bench {
        acc: bench.acc,
        samples: bench.samples,
        registers: bench.registers.write(register, value),
        traffic: bench.traffic.push(BusRequest::WriteByte { register, value }),
    }
}

/// The writes that put `table` into registers 0, 1, 2 and so on.
pub open spec fn table_traffic(table: Seq<u8>) -> Seq<BusRequest> {
    Seq::new(table.len(), |i: int| BusRequest::WriteByte { register: i as u8, value: table[i] })
}

/// A plain write is one request, with the byte as given.
pub proof fn lemma_write(register: u8, value: u8, bench: Bench)
    ensures
        effect(seq![Instr::write(register, value)], bench) == overwritten(bench, register, value),
{
    let acc = bench.acc;
    assert((acc & 0u8) | value == value) by (bit_vector);
    lemma_single_step(Instr::write(register, value), bench);
}

/// A `Load` and a `Store` of one register read it once and write it back
/// once, merged with the operands of the `Store`.
pub proof fn lemma_read_modify_write(register: u8, keep: u8, set: u8, bench: Bench)
    ensures
        effect(seq![Instr::Load { register }, Instr::Store { register, keep, set }], bench)
            == rewritten(bench, register, merge_bits(bench.registers.read(register), keep, set)),
{
    lemma_two_steps(Instr::Load { register }, Instr::Store { register, keep, set }, bench);
}

/// Updating a flag reads the register once and writes it back once, with
/// the flag as asked and every other bit as it was read.
pub proof fn lemma_flag_update(register: u8, mask: u8, on: bool, bench: Bench)
    ensures
        effect(flag_update(register, mask, on), bench) == rewritten(
            bench,
            register,
            with_flag(bench.registers.read(register), mask, on),
        ),
{
    lemma_merge_is_with_flag(bench.registers.read(register), mask, on);
    lemma_read_modify_write(
        register,
        flag_operands(mask, on).0,
        flag_operands(mask, on).1,
        bench,
    );
}

/// Writing a table puts its bytes into registers 0, 1, 2 and so on, in that
/// order and with nothing in between, and touches nothing else.
pub proof fn lemma_table_writes(table: Seq<u8>, bench: Bench)
    requires
        table.len() <= 256,
    ensures
        ({
            let after = effect(table_writes(table), bench);
            &&& after.acc == bench.acc
            &&& after.samples == bench.samples
            &&& after.traffic == bench.traffic + table_traffic(table)
            &&& forall|i: int| 0 <= i < table.len() ==> after.registers.read(i as u8) == table[i]
            &&& forall|r: u8| r >= table.len() ==> after.registers.read(r) == bench.registers.read(r)
        }),
    decreases table.len(),
{
    if table.len() > 0 {
        let last = table.len() - 1;
        let front = table.drop_last();
        let step = seq![Instr::write(last as u8, table[last])];
        assert(table_writes(table) == table_writes(front) + step);
        lemma_effect_concat(table_writes(front), step, bench);
        lemma_table_writes(front, bench);
        let mid = effect(table_writes(front), bench);
        lemma_write(last as u8, table[last], mid);
        let after = effect(table_writes(table), bench);
        assert(after.traffic == bench.traffic + table_traffic(table));
        assert forall|i: int| 0 <= i < table.len() implies after.registers.read(i as u8)
            == table[i] by {
            if i < last {
                assert(mid.registers.read(i as u8) == front[i]);
            }
        }
    }
}

/// Selecting bank 0 or 1 reads the bank register and writes it back with
/// bit 4 cleared or set and every other bit as it was read; no other
/// register changes. Any other bank leaves the bus alone.
pub proof fn law_set_bank(bank: u8, before: Bench)
    ensures
        bank > 1 ==> effect(set_bank_script(bank), before) == before,
        bank <= 1 ==> ({
            let old_byte = before.registers.read(AS7341_CFG_0);
            let new_byte = with_flag(old_byte, CFG_0_REG_BANK, bank == 1);
            &&& effect(set_bank_script(bank), before) == rewritten(before, AS7341_CFG_0, new_byte)
            &&& new_byte & 0x10 == (if bank == 1 { 0x10u8 } else { 0u8 })
            &&& new_byte & 0xEF == old_byte & 0xEF
        }),
{
    if bank <= 1 {
        let old_byte = before.registers.read(AS7341_CFG_0);
        lemma_flag_update(AS7341_CFG_0, CFG_0_REG_BANK, bank == 1, before);
        lemma_with_flag(old_byte, CFG_0_REG_BANK, bank == 1);
        assert(!0x10u8 == 0xEFu8) by (bit_vector);
    }
}

/// Addressing the sensor is one request, for address 0x39.
pub proof fn law_init(before: Bench)
    ensures
        effect(init_script(), before) == (Bench {
            traffic: before.traffic.push(BusRequest::SelectAddress { address: 0x39 }),
            ..before
        }),
{
    lemma_single_step(Instr::Select { address: AS7341_ADDR }, before);
}

/// With the fixed byte, switching the power reads the enable register,
/// writes 0x01 to it and 0x30 to register 0x00, whatever was read and
/// whichever way the switch was asked to go.
pub proof fn law_enable_fixed_byte(flag: bool, before: Bench)
    ensures
        effect(enable_script(flag, PowerPolicy::FixedByte), before) == overwritten(
            overwritten(
                Bench {
                    traffic: before.traffic.push(
                        BusRequest::ReadByte { register: AS7341_ENABLE },
                    ),
                    ..before
                },
                AS7341_ENABLE,
                0x01,
            ),
            0x00,
            0x30,
        ),
{
    let probe = seq![Instr::Probe { register: AS7341_ENABLE }];
    let power = seq![Instr::write(AS7341_ENABLE, ENABLE_PON)];
    let extra = seq![Instr::write(0x00, 0x30)];
    assert(enable_script(flag, PowerPolicy::FixedByte) == probe + power + extra);
    lemma_effect_concat(probe + power, extra, before);
    lemma_effect_concat(probe, power, before);
    lemma_single_step(Instr::Probe { register: AS7341_ENABLE }, before);
    let probed = effect(probe, before);
    lemma_write(AS7341_ENABLE, ENABLE_PON, probed);
    lemma_write(0x00, 0x30, effect(power, probed));
}

/// The flags of the enable register that the driver switches.
pub enum EnableFlag {
    /// Bit 0, switched by `as7341_enable` when it reads, modifies and writes.
    Power,
    /// Bit 1, switched by `as7341_enable_spectral_measure`.
    Spectral,
    /// Bit 4, switched by `as7341_enable_smux`.
    Smux,
}

impl EnableFlag {
    /// The bit of the flag.
    pub open spec fn mask(self) -> u8 {
        match self {
            EnableFlag::Power => ENABLE_PON,
            EnableFlag::Spectral => ENABLE_SP_EN,
            EnableFlag::Smux => ENABLE_SMUXEN,
        }
    }

    /// The script of the operation that switches the flag.
    pub open spec fn script(self, on: bool) -> Seq<Instr> {
        match self {
            EnableFlag::Power => enable_script(on, PowerPolicy::ReadModifyWrite),
            EnableFlag::Spectral => enable_spectral_measure_script(on),
            EnableFlag::Smux => enable_smux_script(on),
        }
    }
}

/// Switching one flag of the enable register reads the register and writes
/// it back; afterwards the flag reads as it was switched, each other flag
/// and each other bit reads as before, and no other register has changed.
pub proof fn law_enable_flag(flag: EnableFlag, on: bool, before: Bench)
    ensures
        ({
            let old_byte = before.registers.read(AS7341_ENABLE);
            let new_byte = with_flag(old_byte, flag.mask(), on);
            &&& effect(flag.script(on), before) == rewritten(before, AS7341_ENABLE, new_byte)
            &&& any_bit(new_byte, flag.mask()) == on
            &&& forall|other: EnableFlag|
                other != flag ==> any_bit(new_byte, #[trigger] other.mask()) == any_bit(
                    old_byte,
                    other.mask(),
                )
            &&& new_byte & !flag.mask() == old_byte & !flag.mask()
        }),
{
    let old_byte = before.registers.read(AS7341_ENABLE);
    lemma_flag_update(AS7341_ENABLE, flag.mask(), on, before);
    lemma_with_flag(old_byte, flag.mask(), on);
    lemma_with_flag_reads_back(old_byte, flag.mask(), on);
    assert forall|other: EnableFlag| other != flag implies any_bit(
        with_flag(old_byte, flag.mask(), on),
        #[trigger] other.mask(),
    ) == any_bit(old_byte, other.mask()) by {
        assert(flag.mask() & other.mask() == 0) by {
            assert(0x01u8 & 0x02u8 == 0 && 0x01u8 & 0x10u8 == 0 && 0x02u8 & 0x10u8 == 0
                && 0x02u8 & 0x01u8 == 0 && 0x10u8 & 0x01u8 == 0 && 0x10u8 & 0x02u8 == 0)
                by (bit_vector);
        }
        lemma_with_flag_apart(old_byte, flag.mask(), on, other.mask());
    }
}

/// The scripts of a run of flag switches, one after the other.
pub open spec fn toggles_script(toggles: Seq<(EnableFlag, bool)>) -> Seq<Instr>
    decreases toggles.len(),
{
    if toggles.len() == 0 {
        Seq::empty()
    } else {
        toggles[0].0.script(toggles[0].1) + toggles_script(toggles.drop_first())
    }
}

/// How `flag` stands after a run of switches: as its last switch left it,
/// or at `start` if the run has none for it.
pub open spec fn settled(toggles: Seq<(EnableFlag, bool)>, flag: EnableFlag, start: bool) -> bool
    decreases toggles.len(),
{
    if toggles.len() == 0 {
        start
    } else {
        settled(
            toggles.drop_first(),
            flag,
            if toggles[0].0 == flag {
                toggles[0].1
            } else {
                start
            },
        )
    }
}

/// After any run of switches of the three flags, in any order, each flag
/// reads as its last switch left it, or as before the run if it was not
/// switched; the five other bits of the enable register read as before the
/// run, and so does every other register.
pub proof fn law_enable_toggles(toggles: Seq<(EnableFlag, bool)>, before: Bench)
    ensures
        ({
            let after = effect(toggles_script(toggles), before);
            let old_byte = before.registers.read(AS7341_ENABLE);
            let new_byte = after.registers.read(AS7341_ENABLE);
            &&& forall|flag: EnableFlag|
                any_bit(new_byte, #[trigger] flag.mask()) == settled(
                    toggles,
                    flag,
                    any_bit(old_byte, flag.mask()),
                )
            &&& new_byte & 0xEC == old_byte & 0xEC
            &&& forall|r: u8| r != AS7341_ENABLE ==> after.registers.read(r) == before.registers.read(r)
            &&& after.samples == before.samples
        }),
    decreases toggles.len(),
{
    if toggles.len() > 0 {
        let flag = toggles[0].0;
        let on = toggles[0].1;
        let rest = toggles.drop_first();
        let old_byte = before.registers.read(AS7341_ENABLE);
        let mid = effect(flag.script(on), before);
        lemma_effect_concat(flag.script(on), toggles_script(rest), before);
        law_enable_flag(flag, on, before);
        law_enable_toggles(rest, mid);
        assert(flag.mask() & 0xEC == 0) by {
            assert(0x01u8 & 0xECu8 == 0 && 0x02u8 & 0xECu8 == 0 && 0x10u8 & 0xECu8 == 0)
                by (bit_vector);
        }
        lemma_with_flag_apart(old_byte, flag.mask(), on, 0xEC);
    }
}

/// The step duration goes out as two writes, the low byte first and the
/// high byte second, and the two bytes together are the value.
pub proof fn law_astep(value: u16, before: Bench)
    ensures
        ({
            let low = (value & 0x00ff) as u8;
            let high = (value >> 8) as u8;
            &&& effect(astep_script(value), before) == overwritten(
                overwritten(before, AS7341_ASTEP_L, low),
                AS7341_ASTEP_H,
                high,
            )
            &&& low == value % 256
            &&& high == value / 256
        }),
{
    let low = (value & 0x00ff) as u8;
    let high = (value >> 8) as u8;
    assert((value & 0x00ff) == value % 256 && (value >> 8) == value / 256) by (bit_vector);
    let first = seq![Instr::write(AS7341_ASTEP_L, low)];
    let second = seq![Instr::write(AS7341_ASTEP_H, high)];
    assert(astep_script(value) == first + second);
    lemma_effect_concat(first, second, before);
    lemma_write(AS7341_ASTEP_L, low, before);
    lemma_write(AS7341_ASTEP_H, high, overwritten(before, AS7341_ASTEP_L, low));
}

/// The gain goes out as one write of the code, which is the value asked
/// for where that is at most 10, and 10 above.
pub proof fn law_again(value: u8, before: Bench)
    ensures
        effect(again_script(value), before) == overwritten(
            before,
            AS7341_CFG_1,
            gain_code(value),
        ),
        gain_code(value) <= 10,
        value <= 10 ==> gain_code(value) == value,
        value > 10 ==> gain_code(value) == 10,
{
    lemma_write(AS7341_CFG_1, gain_code(value), before);
}

/// The step count goes out as one write of the value.
pub proof fn law_atime(value: u8, before: Bench)
    ensures
        effect(atime_script(value), before) == overwritten(before, AS7341_ATIME, value),
{
    lemma_write(AS7341_ATIME, value, before);
}

/// Reading a channel reads its low byte, then its high byte, appends both
/// to the samples in that order, and writes nothing. The value of the
/// channel is the high byte times 256 plus the low byte.
pub proof fn law_get_channel_data(chan: u8, before: Bench)
    requires
        chan <= 3,
    ensures
        ({
            let low_register = (0x95 + 2 * chan) as u8;
            let high_register = (0x96 + 2 * chan) as u8;
            let low = before.registers.read(low_register);
            let high = before.registers.read(high_register);
            let after = effect(get_channel_data_script(chan), before);
            &&& after.samples == before.samples + seq![low, high]
            &&& after.registers == before.registers
            &&& after.acc == before.acc
            &&& after.traffic == before.traffic + seq![
                BusRequest::ReadByte { register: low_register },
                BusRequest::ReadByte { register: high_register },
            ]
            &&& channel_values(seq![low, high]) == seq![channel_value(low, high)]
            &&& channel_value(low, high) == high * 256 + low
        }),
{
    lemma_two_steps(
        Instr::Sample { register: (0x95 + 2 * chan) as u8 },
        Instr::Sample { register: (0x96 + 2 * chan) as u8 },
        before,
    );
    let low = before.registers.read((0x95 + 2 * chan) as u8);
    let high = before.registers.read((0x96 + 2 * chan) as u8);
    lemma_channel_value(low, high);
}

/// Reading the spectral data reads the eight registers from 0x95 to 0x9C in
/// ascending order, appends the bytes to the samples, and writes nothing.
/// The samples then hold channels 0 to 3, each as its low byte and its high
/// byte.
pub proof fn law_read_spectral_data(before: Bench)
    ensures
        ({
            let after = effect(read_spectral_data_script(), before);
            let bytes = Seq::new(8, |i: int| before.registers.read((0x95 + i) as u8));
            &&& after.samples == before.samples + bytes
            &&& after.registers == before.registers
            &&& after.acc == before.acc
            &&& after.traffic == before.traffic + Seq::new(
                8,
                |i: int| BusRequest::ReadByte { register: (0x95 + i) as u8 },
            )
            &&& channel_values(bytes) == Seq::new(
                4,
                |k: int|
                    channel_value(
                        before.registers.read((0x95 + 2 * k) as u8),
                        before.registers.read((0x96 + 2 * k) as u8),
                    ),
            )
        }),
{
    let c0 = get_channel_data_script(0);
    let c1 = get_channel_data_script(1);
    let c2 = get_channel_data_script(2);
    let c3 = get_channel_data_script(3);
    lemma_effect_concat(c0 + c1 + c2, c3, before);
    lemma_effect_concat(c0 + c1, c2, before);
    lemma_effect_concat(c0, c1, before);
    law_get_channel_data(0, before);
    let b0 = effect(c0, before);
    law_get_channel_data(1, b0);
    let b1 = effect(c1, b0);
    law_get_channel_data(2, b1);
    let b2 = effect(c2, b1);
    law_get_channel_data(3, b2);
}

/// Setting the integration mode selects bank 1, reads the configuration
/// register and writes it back there, and selects bank 0 again. For a mode
/// of at most 3 the low two bits of the register become the mode and its
/// other bits stay; the bank register ends with bit 4 clear and its other
/// bits as they were.
pub proof fn law_config(mode: u8, before: Bench)
    ensures
        ({
            let bank = before.registers.read(AS7341_CFG_0);
            let bank_one = with_flag(bank, CFG_0_REG_BANK, true);
            let bank_zero = with_flag(bank_one, CFG_0_REG_BANK, false);
            let config = before.registers.read(AS7341_CONFIG);
            let new_config = merge_bits(config, !CONFIG_INT_MODE, mode);
            &&& effect(config_script(mode), before) == rewritten(
                rewritten(
                    rewritten(before, AS7341_CFG_0, bank_one),
                    AS7341_CONFIG,
                    new_config,
                ),
                AS7341_CFG_0,
                bank_zero,
            )
            &&& bank_one & 0x10 == 0x10
            &&& bank_zero & 0x10 == 0
            &&& bank_zero & 0xEF == bank & 0xEF
            &&& mode <= 3 ==> new_config & 0x03 == mode && new_config & 0xFC == config & 0xFC
        }),
{
    let bank = before.registers.read(AS7341_CFG_0);
    let config = before.registers.read(AS7341_CONFIG);
    let body = seq![
        Instr::Load { register: AS7341_CONFIG },
        Instr::Store { register: AS7341_CONFIG, keep: !CONFIG_INT_MODE, set: mode },
    ];
    lemma_effect_concat(set_bank_script(1) + body, set_bank_script(0), before);
    lemma_effect_concat(set_bank_script(1), body, before);
    law_set_bank(1, before);
    let first = effect(set_bank_script(1), before);
    lemma_read_modify_write(AS7341_CONFIG, !CONFIG_INT_MODE, mode, first);
    let second = effect(body, first);
    law_set_bank(0, second);
    assert(((bank | 0x10u8) & !0x10u8) & 0x10u8 == 0 && ((bank | 0x10u8) & !0x10u8) & 0xEFu8
        == bank & 0xEFu8 && (bank | 0x10u8) & 0x10u8 == 0x10u8) by (bit_vector);
    assert(mode <= 3 ==> ((config & !0x03u8) | mode) & 0x03u8 == mode && ((config & !0x03u8)
        | mode) & 0xFCu8 == config & 0xFCu8) by (bit_vector);
}

/// Switching the LED selects bank 1, writes the LED register, and selects
/// bank 0 again. The byte written has the current code in its low seven
/// bits and the LED switch in bit 7. The code is one less than the current
/// asked for, for a current from 1 to 20; it is 0 below and 19 above.
pub proof fn law_control_leds(led: bool, current: u8, before: Bench)
    ensures
        ({
            let bank = before.registers.read(AS7341_CFG_0);
            let bank_one = with_flag(bank, CFG_0_REG_BANK, true);
            let bank_zero = with_flag(bank_one, CFG_0_REG_BANK, false);
            let byte = led_byte(led, current);
            let code = led_current_code(current);
            &&& effect(control_leds_script(led, current), before) == rewritten(
                overwritten(rewritten(before, AS7341_CFG_0, bank_one), AS7341_LED, byte),
                AS7341_CFG_0,
                bank_zero,
            )
            &&& bank_one & 0x10 == 0x10
            &&& bank_zero & 0x10 == 0
            &&& bank_zero & 0xEF == bank & 0xEF
            &&& byte & 0x7F == code
            &&& byte & 0x80 == (if led { 0x80u8 } else { 0u8 })
            &&& code <= 19
            &&& 1 <= current <= 20 ==> code == current - 1
            &&& current == 0 ==> code == 0
            &&& current > 20 ==> code == 19
        }),
{
    let bank = before.registers.read(AS7341_CFG_0);
    let byte = led_byte(led, current);
    let code = led_current_code(current);
    let body = seq![Instr::write(AS7341_LED, byte)];
    lemma_effect_concat(set_bank_script(1) + body, set_bank_script(0), before);
    lemma_effect_concat(set_bank_script(1), body, before);
    law_set_bank(1, before);
    let first = effect(set_bank_script(1), before);
    lemma_write(AS7341_LED, byte, first);
    law_set_bank(0, effect(body, first));
    assert(((bank | 0x10u8) & !0x10u8) & 0x10u8 == 0 && ((bank | 0x10u8) & !0x10u8) & 0xEFu8
        == bank & 0xEFu8 && (bank | 0x10u8) & 0x10u8 == 0x10u8) by (bit_vector);
    assert(code <= 19 ==> (0x80u8 | code) & 0x7Fu8 == code && (0x80u8 | code) & 0x80u8 == 0x80u8
        && code & 0x7Fu8 == code && code & 0x80u8 == 0) by (bit_vector);
}

/// Handing the LED to the driver selects bank 1, reads the configuration
/// and LED registers, writes the configuration register back with bit 3
/// set, and selects bank 0 again. Taking the LED back clears bit 3 instead,
/// and before that writes the same byte to the LED register.
pub proof fn law_enable_leds(flag: bool, before: Bench)
    ensures
        ({
            let bank = before.registers.read(AS7341_CFG_0);
            let bank_one = with_flag(bank, CFG_0_REG_BANK, true);
            let bank_zero = with_flag(bank_one, CFG_0_REG_BANK, false);
            let config = before.registers.read(AS7341_CONFIG);
            let new_config = with_flag(config, CONFIG_LED_SEL, flag);
            let after = effect(enable_leds_script(flag), before);
            let in_bank_one = rewritten(before, AS7341_CFG_0, bank_one);
            let read = Bench {
                acc: config,
                traffic: in_bank_one.traffic + seq![
                    BusRequest::ReadByte { register: AS7341_CONFIG },
                    BusRequest::ReadByte { register: AS7341_LED },
                ],
                ..in_bank_one
            };
            let done = if flag {
                overwritten(read, AS7341_CONFIG, new_config)
            } else {
                overwritten(overwritten(read, AS7341_LED, new_config), AS7341_CONFIG, new_config)
            };
            &&& after == rewritten(done, AS7341_CFG_0, bank_zero)
            &&& bank_one & 0x10 == 0x10
            &&& bank_zero & 0x10 == 0
            &&& bank_zero & 0xEF == bank & 0xEF
            &&& new_config & 0x08 == (if flag { 0x08u8 } else { 0u8 })
            &&& new_config & 0xF7 == config & 0xF7
        }),
{
    let bank = before.registers.read(AS7341_CFG_0);
    let config = before.registers.read(AS7341_CONFIG);
    let reads = seq![
        Instr::Load { register: AS7341_CONFIG },
        Instr::Probe { register: AS7341_LED },
    ];
    let writes = if flag {
        seq![Instr::Store { register: AS7341_CONFIG, keep: 0xFF, set: CONFIG_LED_SEL }]
    } else {
        seq![
            Instr::Store { register: AS7341_LED, keep: !CONFIG_LED_SEL, set: 0 },
            Instr::Store { register: AS7341_CONFIG, keep: !CONFIG_LED_SEL, set: 0 },
        ]
    };
    let head = set_bank_script(1) + reads;
    lemma_effect_concat(head + writes, set_bank_script(0), before);
    lemma_effect_concat(head, writes, before);
    lemma_effect_concat(set_bank_script(1), reads, before);
    law_set_bank(1, before);
    let first = effect(set_bank_script(1), before);
    lemma_two_steps(reads[0], reads[1], first);
    let second = effect(reads, first);
    lemma_merge_is_with_flag(config, CONFIG_LED_SEL, flag);
    if flag {
        lemma_single_step(writes[0], second);
    } else {
        lemma_two_steps(writes[0], writes[1], second);
    }
    law_set_bank(0, effect(writes, second));
    lemma_with_flag(config, CONFIG_LED_SEL, flag);
    assert(!0x08u8 == 0xF7u8) by (bit_vector);
    assert(((bank | 0x10u8) & !0x10u8) & 0x10u8 == 0 && ((bank | 0x10u8) & !0x10u8) & 0xEFu8
        == bank & 0xEFu8 && (bank | 0x10u8) & 0x10u8 == 0x10u8) by (bit_vector);
}

/// The table that a measurement of `mode` loads.
pub open spec fn smux_table(mode: u8) -> Seq<u8> {
    if mode == 0 {
        SMUX_F1F4_CLEAR_NIR@
    } else {
        SMUX_F5F8_CLEAR_NIR@
    }
}

/// A measurement of mode 0 or 1 is 35 steps of setup and one `Poll` of the
/// status register.
///
/// On a register file the setup is this conversation, in this order: bank 0
/// is selected; spectral measurement is stopped; the SMUX command is
/// written; the 20 bytes of the table of the mode go to registers 0x00 to
/// 0x13 in ascending order; the SMUX is started; the integration mode is
/// set to single measurement, in bank 1, and bank 0 is selected again;
/// spectral measurement is started. Each update of a flag writes back what
/// it read with that one flag changed.
///
/// At the end the table stands in registers 0x00 to 0x13, the enable
/// register has bits 1 and 4 set and its other bits as before, the bank
/// register has bit 4 clear and its other bits as before, the low two bits
/// of the configuration register are 0 and its other bits as before, and no
/// register but these and the SMUX command register has changed.
///
/// Where the status register reports completion already, the `Poll` is one
/// more read.
pub proof fn law_start_measure(mode: u8, before: Bench)
    requires
        mode <= 1,
    ensures
        ({
            let script = start_measure_script(mode);
            let table = smux_table(mode);
            let after = effect(script.drop_last(), before);
            let bank = before.registers.read(AS7341_CFG_0);
            let enable = before.registers.read(AS7341_ENABLE);
            let config = before.registers.read(AS7341_CONFIG);
            let bank_zero = with_flag(bank, CFG_0_REG_BANK, false);
            let bank_one = with_flag(bank_zero, CFG_0_REG_BANK, true);
            let bank_back = with_flag(bank_one, CFG_0_REG_BANK, false);
            let stopped = with_flag(enable, ENABLE_SP_EN, false);
            let routed = with_flag(stopped, ENABLE_SMUXEN, true);
            let started = with_flag(routed, ENABLE_SP_EN, true);
            let new_config = merge_bits(config, !CONFIG_INT_MODE, INT_MODE_SPM);
            &&& script.len() == 36
            &&& script.last() == await_measurement()
            &&& polls_met(script.drop_last(), before)
            &&& after.traffic == before.traffic + seq![
                BusRequest::ReadByte { register: AS7341_CFG_0 },
                BusRequest::WriteByte { register: AS7341_CFG_0, value: bank_zero },
                BusRequest::ReadByte { register: AS7341_ENABLE },
                BusRequest::WriteByte { register: AS7341_ENABLE, value: stopped },
                BusRequest::WriteByte { register: AS7341_CFG_6, value: SMUX_CMD_WRITE },
            ] + table_traffic(table) + seq![
                BusRequest::ReadByte { register: AS7341_ENABLE },
                BusRequest::WriteByte { register: AS7341_ENABLE, value: routed },
                BusRequest::ReadByte { register: AS7341_CFG_0 },
                BusRequest::WriteByte { register: AS7341_CFG_0, value: bank_one },
                BusRequest::ReadByte { register: AS7341_CONFIG },
                BusRequest::WriteByte { register: AS7341_CONFIG, value: new_config },
                BusRequest::ReadByte { register: AS7341_CFG_0 },
                BusRequest::WriteByte { register: AS7341_CFG_0, value: bank_back },
                BusRequest::ReadByte { register: AS7341_ENABLE },
                BusRequest::WriteByte { register: AS7341_ENABLE, value: started },
            ]
            &&& after.samples == before.samples
            &&& forall|i: int| 0 <= i < 20 ==> after.registers.read(i as u8) == table[i]
            &&& after.registers.read(AS7341_CFG_6) == SMUX_CMD_WRITE
            &&& after.registers.read(AS7341_ENABLE) == started
            &&& after.registers.read(AS7341_CFG_0) == bank_back
            &&& after.registers.read(AS7341_CONFIG) == new_config
            &&& forall|r: u8|
                r >= 20 && r != AS7341_CFG_6 && r != AS7341_ENABLE && r != AS7341_CFG_0 && r
                    != AS7341_CONFIG ==> after.registers.read(r) == before.registers.read(r)
            &&& started & 0x12 == 0x12
            &&& started & 0xED == enable & 0xED
            &&& bank_zero & 0x10 == 0
            &&& bank_one & 0x10 == 0x10
            &&& bank_back & 0x10 == 0
            &&& bank_back & 0xEF == bank & 0xEF
            &&& new_config & 0x03 == 0
            &&& new_config & 0xFC == config & 0xFC
            &&& any_bit(before.registers.read(AS7341_STATUS_2), STATUS_2_AVALID) ==> polls_met(
                script,
                before,
            ) && effect(script, before) == (Bench {
                traffic: after.traffic.push(BusRequest::ReadByte { register: AS7341_STATUS_2 }),
                ..after
            })
        }),
{
    let table = smux_table(mode);
    let bank = before.registers.read(AS7341_CFG_0);
    let enable = before.registers.read(AS7341_ENABLE);
    let config = before.registers.read(AS7341_CONFIG);
    let s1 = flag_update(AS7341_CFG_0, CFG_0_REG_BANK, false);
    let s2 = enable_spectral_measure_script(false);
    let s3 = seq![Instr::write(AS7341_CFG_6, SMUX_CMD_WRITE)];
    let s4 = table_writes(table);
    let s5 = enable_smux_script(true);
    let s6 = config_script(INT_MODE_SPM);
    let s7 = enable_spectral_measure_script(true);
    let s8 = seq![await_measurement()];
    let script = start_measure_script(mode);
    let setup = s1 + s2 + s3 + s4 + s5 + s6 + s7;
    assert(script == setup + s8);
    assert(script.drop_last() == setup);

    let bank_zero = with_flag(bank, CFG_0_REG_BANK, false);
    let bank_one = with_flag(bank_zero, CFG_0_REG_BANK, true);
    let bank_back = with_flag(bank_one, CFG_0_REG_BANK, false);
    let stopped = with_flag(enable, ENABLE_SP_EN, false);
    let routed = with_flag(stopped, ENABLE_SMUXEN, true);
    let started = with_flag(routed, ENABLE_SP_EN, true);
    let new_config = merge_bits(config, !CONFIG_INT_MODE, INT_MODE_SPM);

    lemma_flag_update(AS7341_CFG_0, CFG_0_REG_BANK, false, before);
    let b1 = effect(s1, before);
    assert(b1.registers.read(AS7341_ENABLE) == enable);
    lemma_flag_update(AS7341_ENABLE, ENABLE_SP_EN, false, b1);
    let b2 = effect(s2, b1);
    assert(b2 == rewritten(b1, AS7341_ENABLE, stopped));
    lemma_write(AS7341_CFG_6, SMUX_CMD_WRITE, b2);
    let b3 = effect(s3, b2);
    assert(b3 == overwritten(b2, AS7341_CFG_6, SMUX_CMD_WRITE));
    assert(b3.registers.read(AS7341_CFG_6) == SMUX_CMD_WRITE);
    assert(b3.registers.read(AS7341_ENABLE) == stopped);
    assert(b3.registers.read(AS7341_CFG_0) == bank_zero);
    assert(b3.registers.read(AS7341_CONFIG) == config);
    lemma_table_writes(table, b3);
    let b4 = effect(s4, b3);
    assert(b4.traffic == b3.traffic + table_traffic(table));
    assert(b4.registers.read(AS7341_CFG_6) == SMUX_CMD_WRITE);
    assert(b4.registers.read(AS7341_ENABLE) == stopped);
    assert(b4.registers.read(AS7341_CFG_0) == bank_zero);
    assert(b4.registers.read(AS7341_CONFIG) == config);
    lemma_flag_update(AS7341_ENABLE, ENABLE_SMUXEN, true, b4);
    let b5 = effect(s5, b4);
    assert(b5 == rewritten(b4, AS7341_ENABLE, routed));
    assert(b5.registers.read(AS7341_CFG_0) == bank_zero);
    assert(b5.registers.read(AS7341_CONFIG) == config);
    law_config(INT_MODE_SPM, b5);
    let b6 = effect(s6, b5);
    assert(b6 == rewritten(
        rewritten(rewritten(b5, AS7341_CFG_0, bank_one), AS7341_CONFIG, new_config),
        AS7341_CFG_0,
        bank_back,
    ));
    assert(b6.registers.read(AS7341_ENABLE) == routed);
    lemma_flag_update(AS7341_ENABLE, ENABLE_SP_EN, true, b6);
    let b7 = effect(s7, b6);
    assert(b7 == rewritten(b6, AS7341_ENABLE, started));
    assert(b7.registers.read(AS7341_CFG_6) == SMUX_CMD_WRITE);
    assert(b7.registers.read(AS7341_CFG_0) == bank_back);
    assert(b7.registers.read(AS7341_CONFIG) == new_config);
    assert forall|i: int| 0 <= i < 20 implies b7.registers.read(i as u8) == table[i] by {
        assert(b4.registers.read(i as u8) == table[i]);
    }
    assert forall|r: u8|
        r >= 20 && r != AS7341_CFG_6 && r != AS7341_ENABLE && r != AS7341_CFG_0 && r
            != AS7341_CONFIG implies b7.registers.read(r) == before.registers.read(r) by {
        assert(b4.registers.read(r) == b3.registers.read(r));
    }

    lemma_effect_concat(s1, s2, before);
    lemma_effect_concat(s1 + s2, s3, before);
    lemma_effect_concat(s1 + s2 + s3, s4, before);
    lemma_effect_concat(s1 + s2 + s3 + s4, s5, before);
    lemma_effect_concat(s1 + s2 + s3 + s4 + s5, s6, before);
    lemma_effect_concat(s1 + s2 + s3 + s4 + s5 + s6, s7, before);
    assert(effect(setup, before) == b7);

    assert forall|i: int| 0 <= i < setup.len() implies !(#[trigger] setup[i] is Poll) by {
        assert(s6 == set_bank_script(1) + seq![
            Instr::Load { register: AS7341_CONFIG },
            Instr::Store { register: AS7341_CONFIG, keep: !CONFIG_INT_MODE, set: INT_MODE_SPM },
        ] + set_bank_script(0));
    }
    lemma_straight_polls_met(setup, before);
    lemma_polls_met_concat(setup, s8, before);
    lemma_effect_concat(setup, s8, before);
    lemma_single_step(await_measurement(), b7);

    assert(((((enable & !0x02u8) | 0x10u8) | 0x02u8) & 0x12u8 == 0x12u8) && ((((enable & !0x02u8)
        | 0x10u8) | 0x02u8) & 0xEDu8 == enable & 0xEDu8)) by (bit_vector);
    assert((bank & !0x10u8) & 0x10u8 == 0 && ((bank & !0x10u8) | 0x10u8) & 0x10u8 == 0x10u8 && (((
    bank & !0x10u8) | 0x10u8) & !0x10u8) & 0x10u8 == 0 && (((bank & !0x10u8) | 0x10u8) & !0x10u8)
        & 0xEFu8 == bank & 0xEFu8) by (bit_vector);
    assert(((config & !0x03u8) | 0u8) & 0x03u8 == 0 && ((config & !0x03u8) | 0u8) & 0xFCu8
        == config & 0xFCu8) by (bit_vector);
}

/// The replies of a status register that is read while it has no bit of the
/// mask, once for each byte of `busy`, and then has one: each busy byte and
/// the end of the delay after it, and last the byte `ready`.
pub open spec fn poll_replies(busy: Seq<u8>, ready: u8) -> Seq<BusReply>
    decreases busy.len(),
{
    if busy.len() == 0 {
        seq![BusReply::Byte { value: ready }]
    } else {
        seq![BusReply::Byte { value: busy[0] }, BusReply::Done] + poll_replies(
            busy.drop_first(),
            ready,
        )
    }
}

/// A read and a delay, `rounds` times over, and one more read.
pub open spec fn poll_requests(register: u8, pause_ms: u64, rounds: nat) -> Seq<BusRequest>
    decreases rounds,
{
    if rounds == 0 {
        seq![BusRequest::ReadByte { register }]
    } else {
        seq![BusRequest::ReadByte { register }, BusRequest::Delay { millis: pause_ms }]
            + poll_requests(register, pause_ms, (rounds - 1) as nat)
    }
}

/// A machine at a `Poll` reads the register, and after each byte without a
/// bit of the mask asks for one delay and reads again; the first byte with
/// such a bit takes it to the next step. So it asks for exactly as many
/// delays as there were bytes without the bit, and nothing else changes.
pub proof fn law_poll(
    m: Machine,
    register: u8,
    mask: u8,
    pause_ms: u64,
    busy: Seq<u8>,
    ready: u8,
)
    requires
        m.running(),
        m.pause is None,
        m.current() == (Instr::Poll { register, mask, pause_ms }),
        forall|i: int| 0 <= i < busy.len() ==> !any_bit(#[trigger] busy[i], mask),
        any_bit(ready, mask),
    ensures
        m.feed(poll_replies(busy, ready)) == m.advanced(),
        m.asks(poll_replies(busy, ready)) == poll_requests(register, pause_ms, busy.len()),
    decreases busy.len(),
{
    let replies = poll_replies(busy, ready);
    if busy.len() == 0 {
        assert(replies.drop_first().len() == 0);
        assert(m.step(replies[0]).feed(replies.drop_first()) == m.advanced());
        assert(m.step(replies[0]).asks(replies.drop_first()) == Seq::<BusRequest>::empty());
    } else {
        let rest = poll_replies(busy.drop_first(), ready);
        assert(!any_bit(busy[0], mask));
        assert(replies.drop_first().drop_first() == rest);
        assert(replies.drop_first()[0] == BusReply::Done);
        let paused = m.step(replies[0]);
        assert(paused.step(BusReply::Done) == m);
        law_poll(m, register, mask, pause_ms, busy.drop_first(), ready);
        assert(paused.feed(replies.drop_first()) == m.feed(rest));
        assert(paused.asks(replies.drop_first()) == seq![
            BusRequest::Delay { millis: pause_ms },
        ] + m.asks(rest));
    }
}

/// A machine with no request pending takes any replies without a change and
/// asks for nothing.
pub proof fn law_rest(m: Machine, replies: Seq<BusReply>)
    requires
        !m.running(),
    ensures
        m.feed(replies) == m,
        m.asks(replies) == Seq::<BusRequest>::empty(),
    decreases replies.len(),
{
    if replies.len() > 0 {
        law_rest(m, replies.drop_first());
    }
}

/// A failure of the transport ends the walk at the step where it occurred:
/// the outcome is the transport error, no request is pending, and whatever
/// replies follow change nothing.
pub proof fn law_failure_aborts(m: Machine, replies: Seq<BusReply>)
    requires
        m.running(),
    ensures
        m.step(BusReply::Failed).outcome() == Some(Err::<(), DriverError>(DriverError::Transport)),
        m.step(BusReply::Failed).request() is None,
        m.step(BusReply::Failed).pc == m.pc,
        m.step(BusReply::Failed).feed(replies) == m.step(BusReply::Failed),
        m.step(BusReply::Failed).asks(replies) == Seq::<BusRequest>::empty(),
{
    law_rest(m.step(BusReply::Failed), replies);
}

} // verus!
