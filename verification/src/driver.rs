//! The operations of the driver, each as the script it puts on the bus.

use vstd::prelude::*;
use crate::bits::{any_bit, flag_operands, flag_pair, has_any_bit};
use crate::bus::DriverError;
use crate::registers::{
    AGAIN_MAX, AS7341_ADDR, AS7341_ASTEP_H, AS7341_ASTEP_L, AS7341_ATIME, AS7341_CFG_0,
    AS7341_CFG_1, AS7341_CFG_6, AS7341_CH0_DATA_H, AS7341_CH0_DATA_L, AS7341_CONFIG,
    AS7341_ENABLE, AS7341_LED, AS7341_STATUS_2, CFG_0_REG_BANK, CONFIG_INT_MODE, CONFIG_LED_SEL,
    ENABLE_PON, ENABLE_SMUXEN, ENABLE_SP_EN, INT_MODE_SPM, LED_ACT, LED_CURRENT_MAX,
    POLL_INTERVAL_MS, SMUX_CMD_WRITE, SMUX_F1F4_CLEAR_NIR, SMUX_F5F8_CLEAR_NIR, STATUS_2_AVALID,
};
use crate::script::{extend_script, Instr};

verus! {

/// How `as7341_enable` writes the enable register.
#[derive(Clone, Copy, Debug, PartialEq, Eq, Structural)]
pub enum PowerPolicy {
    /// Read the register, then write the power-on byte 0x01 to it and 0x30
    /// to register 0x00, whatever was read and whatever was asked for.
    FixedByte,
    /// Read the register and write it back with only the power bit changed.
    ReadModifyWrite,
}

/// Read `register` and write it back with the bits of `mask` raised if `on`,
/// cleared if not.
pub open spec fn flag_update(register: u8, mask: u8, on: bool) -> Seq<Instr> {
    seq![
        Instr::Load { register },
        Instr::Store {
            register,
            keep: flag_operands(mask, on).0,
            set: flag_operands(mask, on).1,
        },
    ]
}

/// The script that updates a flag of `register`.
pub fn update_flag(register: u8, mask: u8, on: bool) -> (script: Vec<Instr>)
    ensures
        script@ == flag_update(register, mask, on),
{
    let (keep, set) = flag_pair(mask, on);
    let mut script: Vec<Instr> = Vec::new();
    script.push(Instr::Load { register });
    script.push(Instr::Store { register, keep, set });
    script
}

/// Write `table[i]` to register `i`, for each `i` in ascending order.
pub open spec fn table_writes(table: Seq<u8>) -> Seq<Instr> {
    Seq::new(table.len(), |i: int| Instr::write(i as u8, table[i]))
}

/// The script that loads a SMUX table.
pub fn write_table(table: &[u8; 20]) -> (script: Vec<Instr>)
    ensures
        script@ == table_writes(table@),
{
    let mut script: Vec<Instr> = Vec::new();
    let mut i: usize = 0;
    while i < 20
        invariant
            i <= 20,
            script@ == table_writes(table@.subrange(0, i as int)),
        decreases 20 - i,
    {
        script.push(Instr::new_write(i as u8, table[i]));
        i = i + 1;
    }
    script
}

/// One request: address the sensor at 0x39.
pub open spec fn init_script() -> Seq<Instr> {
    seq![Instr::Select { address: AS7341_ADDR }]
}

/// Addresses the sensor.
pub fn as7341_init() -> (script: Vec<Instr>)
    ensures
        script@ == init_script(),
{
    let mut script: Vec<Instr> = Vec::new();
    script.push(Instr::Select { address: AS7341_ADDR });
    script
}

/// An update of bit 4 of the bank register for bank 0 or 1, and no step at
/// all for any other bank.
pub open spec fn set_bank_script(bank: u8) -> Seq<Instr> {
    if bank == 0 || bank == 1 {
        flag_update(AS7341_CFG_0, CFG_0_REG_BANK, bank == 1)
    } else {
        Seq::empty()
    }
}

/// Selects register bank 0 or 1. Any other bank is no request at all.
pub fn as7341_set_bank(bank: u8) -> (script: Vec<Instr>)
    ensures
        script@ == set_bank_script(bank),
{
    if bank != 0 && bank != 1 {
        Vec::new()
    } else {
        update_flag(AS7341_CFG_0, CFG_0_REG_BANK, bank == 1)
    }
}

/// With the fixed byte: a read of the enable register, 0x01 written to it,
/// and 0x30 written to register 0x00. Else an update of bit 0 of the enable
/// register.
pub open spec fn enable_script(flag: bool, policy: PowerPolicy) -> Seq<Instr> {
    match policy {
        PowerPolicy::FixedByte => seq![
            Instr::Probe { register: AS7341_ENABLE },
            Instr::write(AS7341_ENABLE, ENABLE_PON),
            Instr::write(0x00, 0x30),
        ],
        PowerPolicy::ReadModifyWrite => flag_update(AS7341_ENABLE, ENABLE_PON, flag),
    }
}

/// Switches the power of the sensor, in the way `policy` names.
pub fn as7341_enable(flag: bool, policy: PowerPolicy) -> (script: Vec<Instr>)
    ensures
        script@ == enable_script(flag, policy),
{
    match policy {
        PowerPolicy::FixedByte => {
            let mut script: Vec<Instr> = Vec::new();
            script.push(Instr::Probe { register: AS7341_ENABLE });
            script.push(Instr::new_write(AS7341_ENABLE, ENABLE_PON));
            script.push(Instr::new_write(0x00, 0x30));
            script
        },
        PowerPolicy::ReadModifyWrite => update_flag(AS7341_ENABLE, ENABLE_PON, flag),
    }
}

/// An update of bit 1 of the enable register.
pub open spec fn enable_spectral_measure_script(flag: bool) -> Seq<Instr> {
    flag_update(AS7341_ENABLE, ENABLE_SP_EN, flag)
}

/// Starts or stops spectral measurement.
pub fn as7341_enable_spectral_measure(flag: bool) -> (script: Vec<Instr>)
    ensures
        script@ == enable_spectral_measure_script(flag),
{
    update_flag(AS7341_ENABLE, ENABLE_SP_EN, flag)
}

/// An update of bit 4 of the enable register.
pub open spec fn enable_smux_script(flag: bool) -> Seq<Instr> {
    flag_update(AS7341_ENABLE, ENABLE_SMUXEN, flag)
}

/// Starts or stops the SMUX command.
pub fn as7341_enable_smux(flag: bool) -> (script: Vec<Instr>)
    ensures
        script@ == enable_smux_script(flag),
{
    update_flag(AS7341_ENABLE, ENABLE_SMUXEN, flag)
}

/// Bank 1, then the configuration register read and written back with its
/// low two bits cleared and `mode` laid over it, then bank 0.
pub open spec fn config_script(mode: u8) -> Seq<Instr> {
    set_bank_script(1) + seq![
        Instr::Load { register: AS7341_CONFIG },
        Instr::Store { register: AS7341_CONFIG, keep: !CONFIG_INT_MODE, set: mode },
    ] + set_bank_script(0)
}

/// Sets the integration mode, in bank 1, and returns to bank 0.
pub fn as7341_config(mode: u8) -> (script: Vec<Instr>)
    ensures
        script@ == config_script(mode),
{
    let mut script = as7341_set_bank(1);
    script.push(Instr::Load { register: AS7341_CONFIG });
    script.push(Instr::Store { register: AS7341_CONFIG, keep: !CONFIG_INT_MODE, set: mode });
    let back = as7341_set_bank(0);
    extend_script(&mut script, &back);
    script
}

/// Bank 1, then the configuration and LED registers read, then the
/// configuration byte written back with bit 3 set, or with bit 3 cleared to
/// the LED register and to the configuration register, then bank 0.
pub open spec fn enable_leds_script(flag: bool) -> Seq<Instr> {
    let head = set_bank_script(1) + seq![
        Instr::Load { register: AS7341_CONFIG },
        Instr::Probe { register: AS7341_LED },
    ];
    let body = if flag {
        seq![Instr::Store { register: AS7341_CONFIG, keep: 0xFF, set: CONFIG_LED_SEL }]
    } else {
        seq![
            Instr::Store { register: AS7341_LED, keep: !CONFIG_LED_SEL, set: 0 },
            Instr::Store { register: AS7341_CONFIG, keep: !CONFIG_LED_SEL, set: 0 },
        ]
    };
    head + body + set_bank_script(0)
}

/// Hands the LED to the driver, or takes it back. Taking it back also writes
/// the configuration byte, with its LED bit cleared, to the LED register.
pub fn as7341_enable_leds(flag: bool) -> (script: Vec<Instr>)
    ensures
        script@ == enable_leds_script(flag),
{
    let mut script = as7341_set_bank(1);
    script.push(Instr::Load { register: AS7341_CONFIG });
    script.push(Instr::Probe { register: AS7341_LED });
    if flag {
        script.push(Instr::Store { register: AS7341_CONFIG, keep: 0xFF, set: CONFIG_LED_SEL });
    } else {
        script.push(Instr::Store { register: AS7341_LED, keep: !CONFIG_LED_SEL, set: 0 });
        script.push(Instr::Store { register: AS7341_CONFIG, keep: !CONFIG_LED_SEL, set: 0 });
    }
    let back = as7341_set_bank(0);
    extend_script(&mut script, &back);
    script
}

/// The current code for a request of `current`: one less, at least 0 and
/// at most 19.
pub open spec fn led_current_code(current: u8) -> u8 {
    if current <= 1 {
        0
    } else if current - 1 > LED_CURRENT_MAX {
        LED_CURRENT_MAX
    } else {
        (current - 1) as u8
    }
}

/// The byte of the LED register: the current code, and bit 7 if the LED is on.
pub open spec fn led_byte(led: bool, current: u8) -> u8 {
    if led {
        LED_ACT | led_current_code(current)
    } else {
        led_current_code(current)
    }
}

/// Bank 1, then the LED byte written, then bank 0.
pub open spec fn control_leds_script(led: bool, current: u8) -> Seq<Instr> {
    set_bank_script(1) + seq![Instr::write(AS7341_LED, led_byte(led, current))] + set_bank_script(0)
}

/// Switches the LED and sets its current.
pub fn as7341_control_leds(led: bool, current: u8) -> (script: Vec<Instr>)
    ensures
        script@ == control_leds_script(led, current),
{
    let mut code: u8 = current;
    if code < 1 {
        code = 1;
    }
    code = code - 1;
    if code > LED_CURRENT_MAX {
        code = LED_CURRENT_MAX;
    }
    let data: u8 = if led {
        LED_ACT | code
    } else {
        code
    };
    let mut script = as7341_set_bank(1);
    script.push(Instr::new_write(AS7341_LED, data));
    let back = as7341_set_bank(0);
    extend_script(&mut script, &back);
    script
}

/// One write of `value` to the step count register.
pub open spec fn atime_script(value: u8) -> Seq<Instr> {
    seq![Instr::write(AS7341_ATIME, value)]
}

/// Sets the integration step count.
pub fn as7341_atime_config(value: u8) -> (script: Vec<Instr>)
    ensures
        script@ == atime_script(value),
{
    let mut script: Vec<Instr> = Vec::new();
    script.push(Instr::new_write(AS7341_ATIME, value));
    script
}

/// The low byte of `value` written to the low register, then its high byte
/// to the high register.
pub open spec fn astep_script(value: u16) -> Seq<Instr> {
    seq![
        Instr::write(AS7341_ASTEP_L, (value & 0x00ff) as u8),
        Instr::write(AS7341_ASTEP_H, (value >> 8) as u8),
    ]
}

/// Sets the integration step duration: the low byte first, then the high
/// byte, after which the chip takes the value.
pub fn as7341_astep_config(value: u16) -> (script: Vec<Instr>)
    ensures
        script@ == astep_script(value),
{
    assert(value & 0x00ff < 256) by (bit_vector);
    assert(value >> 8 < 256) by (bit_vector);
    let low: u8 = (value & 0x00ff) as u8;
    let high: u8 = (value >> 8) as u8;
    let mut script: Vec<Instr> = Vec::new();
    script.push(Instr::new_write(AS7341_ASTEP_L, low));
    script.push(Instr::new_write(AS7341_ASTEP_H, high));
    script
}

/// The gain code that is written for a request of `value`.
pub open spec fn gain_code(value: u8) -> u8 {
    if value > AGAIN_MAX {
        AGAIN_MAX
    } else {
        value
    }
}

/// One write of the gain code to the gain register.
pub open spec fn again_script(value: u8) -> Seq<Instr> {
    seq![Instr::write(AS7341_CFG_1, gain_code(value))]
}

/// Sets the gain; a code above 10 is written as 10.
pub fn as7341_again_config(value: u8) -> (script: Vec<Instr>)
    ensures
        script@ == again_script(value),
{
    let code: u8 = if value > AGAIN_MAX {
        AGAIN_MAX
    } else {
        value
    };
    let mut script: Vec<Instr> = Vec::new();
    script.push(Instr::new_write(AS7341_CFG_1, code));
    script
}

/// The table for F1 to F4, Clear and NIR, byte by byte.
pub open spec fn f1f4_clear_nir_script() -> Seq<Instr> {
    table_writes(SMUX_F1F4_CLEAR_NIR@)
}

/// Loads the SMUX table for F1 to F4, Clear and NIR.
pub fn as7341_f1f4_clear_nir() -> (script: Vec<Instr>)
    ensures
        script@ == f1f4_clear_nir_script(),
{
    let table: [u8; 20] = SMUX_F1F4_CLEAR_NIR;
    write_table(&table)
}

/// The table for F5 to F8, Clear and NIR, byte by byte.
pub open spec fn f5f8_clear_nir_script() -> Seq<Instr> {
    table_writes(SMUX_F5F8_CLEAR_NIR@)
}

/// Loads the SMUX table for F5 to F8, Clear and NIR.
pub fn as7341_f5f8_clear_nir() -> (script: Vec<Instr>)
    ensures
        script@ == f5f8_clear_nir_script(),
{
    let table: [u8; 20] = SMUX_F5F8_CLEAR_NIR;
    write_table(&table)
}

/// Whether a byte of the status register reports a completed measurement.
pub fn as7341_measure_complete(status: u8) -> (done: bool)
    ensures
        done == any_bit(status, STATUS_2_AVALID),
{
    has_any_bit(status, STATUS_2_AVALID)
}

/// Read the status register until it reports a completed measurement.
pub open spec fn await_measurement() -> Instr {
    Instr::Poll { register: AS7341_STATUS_2, mask: STATUS_2_AVALID, pause_ms: POLL_INTERVAL_MS }
}

/// The measurement sequence: bank 0 forced, spectral measurement stopped,
/// the SMUX command written, the table of the mode loaded, the SMUX started,
/// the integration mode set to a single measurement, spectral measurement
/// started, and the status register polled until the measurement is
/// complete.
pub open spec fn start_measure_script(mode: u8) -> Seq<Instr> {
    flag_update(AS7341_CFG_0, CFG_0_REG_BANK, false)
        + enable_spectral_measure_script(false)
        + seq![Instr::write(AS7341_CFG_6, SMUX_CMD_WRITE)]
        + (if mode == 0 { f1f4_clear_nir_script() } else { f5f8_clear_nir_script() })
        + enable_smux_script(true)
        + config_script(INT_MODE_SPM)
        + enable_spectral_measure_script(true)
        + seq![await_measurement()]
}

/// One measurement of the channels that `mode` names: 0 for F1 to F4, 1 for
/// F5 to F8, each with Clear and NIR. Any other mode is refused, and nothing
/// goes on the bus.
pub fn as7341_start_measure(mode: u8) -> (r: Result<Vec<Instr>, DriverError>)
    ensures
        mode <= 1 ==> r is Ok && r->Ok_0@ == start_measure_script(mode),
        mode > 1 ==> r == Err::<Vec<Instr>, DriverError>(DriverError::InvalidMode),
{
    if mode != 0 && mode != 1 {
        return Err(DriverError::InvalidMode);
    }
    let mut script = update_flag(AS7341_CFG_0, CFG_0_REG_BANK, false);
    let stop = as7341_enable_spectral_measure(false);
    extend_script(&mut script, &stop);
    script.push(Instr::new_write(AS7341_CFG_6, SMUX_CMD_WRITE));
    let table = if mode == 0 {
        as7341_f1f4_clear_nir()
    } else {
        as7341_f5f8_clear_nir()
    };
    extend_script(&mut script, &table);
    let smux = as7341_enable_smux(true);
    extend_script(&mut script, &smux);
    let config = as7341_config(INT_MODE_SPM);
    extend_script(&mut script, &config);
    let start = as7341_enable_spectral_measure(true);
    extend_script(&mut script, &start);
    script.push(
        Instr::Poll {
            register: AS7341_STATUS_2,
            mask: STATUS_2_AVALID,
            pause_ms: POLL_INTERVAL_MS,
        },
    );
    Ok(script)
}

/// The low register of the channel sampled, then its high register.
pub open spec fn get_channel_data_script(chan: u8) -> Seq<Instr> {
    seq![
        Instr::Sample { register: (AS7341_CH0_DATA_L + 2 * chan) as u8 },
        Instr::Sample { register: (AS7341_CH0_DATA_H + 2 * chan) as u8 },
    ]
}

/// Reads the two bytes of channel `chan`, the low byte first.
pub fn as7341_get_channel_data(chan: u8) -> (script: Vec<Instr>)
    requires
        chan <= 3,
    ensures
        script@ == get_channel_data_script(chan),
{
    let mut script: Vec<Instr> = Vec::new();
    script.push(Instr::Sample { register: AS7341_CH0_DATA_L + chan * 2 });
    script.push(Instr::Sample { register: AS7341_CH0_DATA_H + chan * 2 });
    script
}

/// Channels 0 to 3 sampled, one after the other.
pub open spec fn read_spectral_data_script() -> Seq<Instr> {
    get_channel_data_script(0) + get_channel_data_script(1) + get_channel_data_script(2)
        + get_channel_data_script(3)
}

/// Reads channels 0 to 3 after a measurement of F1 to F4.
pub fn as7341_read_spectral_data_one() -> (script: Vec<Instr>)
    ensures
        script@ == read_spectral_data_script(),
{
    read_four_channels()
}

/// Reads channels 0 to 3 after a measurement of F5 to F8.
pub fn as7341_read_spectral_data_two() -> (script: Vec<Instr>)
    ensures
        script@ == read_spectral_data_script(),
{
    read_four_channels()
}

/// The script that samples channels 0 to 3.
fn read_four_channels() -> (script: Vec<Instr>)
    ensures
        script@ == read_spectral_data_script(),
{
    let mut script = as7341_get_channel_data(0);
    let second = as7341_get_channel_data(1);
    extend_script(&mut script, &second);
    let third = as7341_get_channel_data(2);
    extend_script(&mut script, &third);
    let fourth = as7341_get_channel_data(3);
    extend_script(&mut script, &fourth);
    script
}

/// The reading of a channel whose registers hold `low` and `high`.
pub open spec fn channel_value(low: u8, high: u8) -> u16 {
    ((high as u16) << 8) | (low as u16)
}

/// The reading is the high byte times 256 plus the low byte.
pub proof fn lemma_channel_value(low: u8, high: u8)
    ensures
        channel_value(low, high) == high * 256 + low,
{
    assert((((high as u16) << 8) | (low as u16)) == (high as u16) * 256 + (low as u16))
        by (bit_vector);
}

/// Puts the two bytes of a channel together.
pub fn assemble_channel(low: u8, high: u8) -> (value: u16)
    ensures
        value == channel_value(low, high),
        value == high * 256 + low,
{
    proof {
        lemma_channel_value(low, high);
    }
    ((high as u16) << 8) | (low as u16)
}

/// The readings in a run of samples: one for each pair of a low byte and
/// the high byte after it. A last byte without its pair is left out.
pub open spec fn channel_values(samples: Seq<u8>) -> Seq<u16> {
    Seq::new(samples.len() / 2, |i: int| channel_value(samples[2 * i], samples[2 * i + 1]))
}

/// Puts the samples of a sequencer together, two by two.
pub fn channel_readings(samples: &Vec<u8>) -> (values: Vec<u16>)
    ensures
        values@ == channel_values(samples@),
{
    let mut values: Vec<u16> = Vec::new();
    let mut i: usize = 0;
    while i + 1 < samples.len()
        invariant
            i % 2 == 0,
            i <= samples.len(),
            values@ == channel_values(samples@.subrange(0, i as int)),
        decreases samples.len() - i,
    {
        values.push(assemble_channel(samples[i], samples[i + 1]));
        i = i + 2;
    }
    values
}

} // verus!
