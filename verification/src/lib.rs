//! Driver core for the AS7341 spectral sensor.
//!
//! The driver does not own a bus. Each of its operations is a script of
//! register reads and writes; a `Sequencer` walks a script and names one
//! bus request at a time, and whoever owns the bus performs the request and
//! hands back the reply. `model` and `laws` say what the scripts do to a
//! register file, and `palette` holds the colours of the eight channels.

pub mod bits;
pub mod bus;
pub mod driver;
pub mod laws;
pub mod model;
pub mod palette;
pub mod registers;
pub mod script;
pub mod sequencer;

pub use bus::{BusReply, BusRequest, DriverError};
pub use driver::{
    as7341_again_config, as7341_astep_config, as7341_atime_config, as7341_config,
    as7341_control_leds, as7341_enable, as7341_enable_leds, as7341_enable_smux,
    as7341_enable_spectral_measure, as7341_f1f4_clear_nir, as7341_f5f8_clear_nir,
    as7341_get_channel_data, as7341_init, as7341_measure_complete,
    as7341_read_spectral_data_one, as7341_read_spectral_data_two, as7341_set_bank,
    as7341_start_measure, assemble_channel, channel_readings, PowerPolicy,
};
pub use palette::{bar_color, Rgb};
pub use script::Instr;
pub use sequencer::Sequencer;
