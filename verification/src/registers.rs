//! Register map of the AS7341 and the fixed values the driver writes.

use vstd::prelude::*;

verus! {

/// Seven-bit bus address of the sensor.
pub const AS7341_ADDR: u16 = 0x39;

/// Chip configuration: integration mode in the low two bits (bank 1).
pub const AS7341_CONFIG: u8 = 0x70;

/// LED enable and drive current (bank 1).
pub const AS7341_LED: u8 = 0x74;

/// Power, spectral measurement and SMUX enable bits.
pub const AS7341_ENABLE: u8 = 0x80;

/// Integration step count.
pub const AS7341_ATIME: u8 = 0x81;

/// Low byte of channel 0; channel `n` lies `2n` above.
pub const AS7341_CH0_DATA_L: u8 = 0x95;

/// High byte of channel 0; channel `n` lies `2n` above.
pub const AS7341_CH0_DATA_H: u8 = 0x96;

/// Status register that reports a completed measurement.
pub const AS7341_STATUS_2: u8 = 0xA3;

/// Bank control register.
pub const AS7341_CFG_0: u8 = 0xA9;

/// Gain code.
pub const AS7341_CFG_1: u8 = 0xAA;

/// SMUX command register.
pub const AS7341_CFG_6: u8 = 0xAF;

/// Low byte of the integration step duration.
pub const AS7341_ASTEP_L: u8 = 0xCA;

/// High byte of the integration step duration.
pub const AS7341_ASTEP_H: u8 = 0xCB;

/// ENABLE bit 0: power on.
pub const ENABLE_PON: u8 = 0x01;

/// ENABLE bit 1: spectral measurement enable.
pub const ENABLE_SP_EN: u8 = 0x02;

/// ENABLE bit 4: SMUX enable.
pub const ENABLE_SMUXEN: u8 = 0x10;

/// CFG_0 bit 4: register bank selector.
pub const CFG_0_REG_BANK: u8 = 0x10;

/// CONFIG bits 0 and 1: integration mode.
pub const CONFIG_INT_MODE: u8 = 0x03;

/// CONFIG bit 3: LED control enable.
pub const CONFIG_LED_SEL: u8 = 0x08;

/// LED bit 7: LED on.
pub const LED_ACT: u8 = 0x80;

/// STATUS_2 bit 6: measurement complete.
pub const STATUS_2_AVALID: u8 = 0x40;

/// Command written to CFG_6 before the SMUX table is loaded.
pub const SMUX_CMD_WRITE: u8 = 0x10;

/// Integration mode for a single spectral measurement.
pub const INT_MODE_SPM: u8 = 0x00;

/// Largest gain code the chip accepts.
pub const AGAIN_MAX: u8 = 10;

/// Largest LED current code.
pub const LED_CURRENT_MAX: u8 = 19;

/// Time between two reads of the status register while a measurement runs.
pub const POLL_INTERVAL_MS: u64 = 100;

/// Number of bytes in one SMUX table.
pub const SMUX_LEN: usize = 20;

/// SMUX table that routes F1 to F4, Clear and NIR to the converters.
/// It is written to registers 0x00 to 0x13, one byte each.
pub const SMUX_F1F4_CLEAR_NIR: [u8; 20] = [
    0x30, 0x01, 0x00, 0x00, 0x00, 0x42, 0x00, 0x00, 0x50, 0x00,
    0x00, 0x00, 0x20, 0x04, 0x00, 0x30, 0x01, 0x50, 0x00, 0x06,
];

/// SMUX table that routes F5 to F8, Clear and NIR to the converters.
pub const SMUX_F5F8_CLEAR_NIR: [u8; 20] = [
    0x00, 0x00, 0x00, 0x40, 0x02, 0x00, 0x10, 0x03, 0x50, 0x10,
    0x03, 0x00, 0x00, 0x00, 0x24, 0x00, 0x00, 0x50, 0x00, 0x06,
];

} // verus!
