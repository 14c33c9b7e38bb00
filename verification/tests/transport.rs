//! The driver's scripts, walked by a sequencer against a simulated bus.

use r_spec1::{
    as7341_again_config, as7341_astep_config, as7341_atime_config, as7341_config,
    as7341_control_leds, as7341_enable, as7341_enable_leds, as7341_enable_smux,
    as7341_enable_spectral_measure, as7341_get_channel_data, as7341_init,
    as7341_read_spectral_data_one, as7341_read_spectral_data_two, as7341_set_bank,
    as7341_start_measure, channel_readings, BusReply, BusRequest, DriverError, Instr,
    PowerPolicy, Sequencer,
};

const SMUX_A: [u8; 20] = [
    0x30, 0x01, 0x00, 0x00, 0x00, 0x42, 0x00, 0x00, 0x50, 0x00, 0x00, 0x00, 0x20, 0x04, 0x00,
    0x30, 0x01, 0x50, 0x00, 0x06,
];

const SMUX_B: [u8; 20] = [
    0x00, 0x00, 0x00, 0x40, 0x02, 0x00, 0x10, 0x03, 0x50, 0x10, 0x03, 0x00, 0x00, 0x00, 0x24,
    0x00, 0x00, 0x50, 0x00, 0x06,
];

/// A register file that logs every request. Reads of the status register
/// are answered from `status` while it lasts; request number `fail_at`
/// fails.
struct SimBus {
    registers: [u8; 256],
    log: Vec<BusRequest>,
    status: Vec<u8>,
    fail_at: Option<usize>,
}

impl SimBus {
    fn new() -> SimBus {
        SimBus { registers: [0; 256], log: Vec::new(), status: Vec::new(), fail_at: None }
    }

    fn with(pairs: &[(u8, u8)]) -> SimBus {
        let mut bus = SimBus::new();
        for &(register, value) in pairs {
            bus.registers[register as usize] = value;
        }
        bus
    }

    fn perform(&mut self, request: BusRequest) -> BusReply {
        let number = self.log.len();
        self.log.push(request);
        if self.fail_at == Some(number) {
            return BusReply::Failed;
        }
        match request {
            BusRequest::ReadByte { register } => {
                if register == 0xA3 && !self.status.is_empty() {
                    BusReply::Byte { value: self.status.remove(0) }
                } else {
                    BusReply::Byte { value: self.registers[register as usize] }
                }
            }
            BusRequest::WriteByte { register, value } => {
                self.registers[register as usize] = value;
                BusReply::Done
            }
            BusRequest::SelectAddress { .. } | BusRequest::Delay { .. } => BusReply::Done,
        }
    }

    fn run(&mut self, script: Vec<Instr>) -> Sequencer {
        let mut sequencer = Sequencer::new(script);
        let mut next = sequencer.request();
        let mut turns = 0;
        while let Some(request) = next {
            assert!(turns < 10_000);
            turns += 1;
            let reply = self.perform(request);
            next = sequencer.step(reply);
        }
        sequencer
    }
}

fn read(register: u8) -> BusRequest {
    BusRequest::ReadByte { register }
}

fn write(register: u8, value: u8) -> BusRequest {
    BusRequest::WriteByte { register, value }
}

fn differing(a: &[u8; 256], b: &[u8; 256]) -> Vec<usize> {
    (0..256).filter(|&i| a[i] != b[i]).collect()
}

#[test]
fn init_selects_address_0x39() {
    let mut bus = SimBus::new();
    let done = bus.run(as7341_init());
    assert_eq!(bus.log, vec![BusRequest::SelectAddress { address: 0x39 }]);
    assert_eq!(done.outcome(), Some(Ok(())));
}

#[test]
fn set_bank_changes_only_bit_4() {
    for initial in [0x00u8, 0x10, 0xA5, 0xEF, 0xFF] {
        for bank in [0u8, 1] {
            let mut bus = SimBus::with(&[(0xA9, initial)]);
            let before = bus.registers;
            let done = bus.run(as7341_set_bank(bank));
            let expected = if bank == 1 { initial | 0x10 } else { initial & 0xEF };
            assert_eq!(done.outcome(), Some(Ok(())));
            assert_eq!(bus.registers[0xA9], expected);
            assert_eq!(bus.registers[0xA9] & 0x10, bank << 4);
            assert_eq!(bus.registers[0xA9] & 0xEF, initial & 0xEF);
            assert_eq!(bus.log, vec![read(0xA9), write(0xA9, expected)]);
            assert!(differing(&before, &bus.registers).iter().all(|&i| i == 0xA9));
        }
    }
}

#[test]
fn set_bank_round_trip_restores_the_byte() {
    let mut bus = SimBus::with(&[(0xA9, 0x25)]);
    bus.run(as7341_set_bank(1));
    assert_eq!(bus.registers[0xA9], 0x35);
    bus.run(as7341_set_bank(0));
    assert_eq!(bus.registers[0xA9], 0x25);
}

#[test]
fn set_bank_ignores_any_other_bank() {
    for bank in [2u8, 3, 16, 255] {
        let mut bus = SimBus::with(&[(0xA9, 0x5A)]);
        let script = as7341_set_bank(bank);
        assert!(script.is_empty());
        let done = bus.run(script);
        assert_eq!(done.outcome(), Some(Ok(())));
        assert!(bus.log.is_empty());
        assert_eq!(bus.registers[0xA9], 0x5A);
    }
}

#[test]
fn enable_read_modify_write_toggles_bit_0() {
    let mut bus = SimBus::with(&[(0x80, 0x12)]);
    bus.run(as7341_enable(true, PowerPolicy::ReadModifyWrite));
    assert_eq!(bus.registers[0x80], 0x13);
    bus.run(as7341_enable(false, PowerPolicy::ReadModifyWrite));
    assert_eq!(bus.registers[0x80], 0x12);
    assert_eq!(bus.log, vec![read(0x80), write(0x80, 0x13), read(0x80), write(0x80, 0x12)]);
}

#[test]
fn enable_fixed_byte_writes_the_two_literals() {
    for flag in [true, false] {
        let mut bus = SimBus::with(&[(0x80, 0x12), (0x00, 0x77)]);
        let done = bus.run(as7341_enable(flag, PowerPolicy::FixedByte));
        assert_eq!(done.outcome(), Some(Ok(())));
        assert_eq!(bus.log, vec![read(0x80), write(0x80, 0x01), write(0x00, 0x30)]);
        assert_eq!(bus.registers[0x80], 0x01);
        assert_eq!(bus.registers[0x00], 0x30);
    }
}

#[test]
fn enable_spectral_measure_toggles_bit_1() {
    let mut bus = SimBus::with(&[(0x80, 0x11)]);
    bus.run(as7341_enable_spectral_measure(true));
    assert_eq!(bus.registers[0x80], 0x13);
    bus.run(as7341_enable_spectral_measure(false));
    assert_eq!(bus.registers[0x80], 0x11);
    assert_eq!(bus.log, vec![read(0x80), write(0x80, 0x13), read(0x80), write(0x80, 0x11)]);
}

#[test]
fn enable_smux_toggles_bit_4() {
    let mut bus = SimBus::with(&[(0x80, 0x03)]);
    bus.run(as7341_enable_smux(true));
    assert_eq!(bus.registers[0x80], 0x13);
    bus.run(as7341_enable_smux(false));
    assert_eq!(bus.registers[0x80], 0x03);
    assert_eq!(bus.log, vec![read(0x80), write(0x80, 0x13), read(0x80), write(0x80, 0x03)]);
}

fn toggle(bus: &mut SimBus, which: usize, on: bool) {
    let script = match which {
        0 => as7341_enable(on, PowerPolicy::ReadModifyWrite),
        1 => as7341_enable_spectral_measure(on),
        _ => as7341_enable_smux(on),
    };
    bus.run(script);
}

#[test]
fn enable_setters_keep_each_other_in_any_order() {
    let masks = [0x01u8, 0x02, 0x10];
    let runs: [&[(usize, bool)]; 5] = [
        &[(0, true), (1, true), (2, true)],
        &[(2, true), (1, true), (0, true), (1, false)],
        &[(1, true), (1, false), (1, true), (0, false), (2, false)],
        &[(0, false), (2, true), (0, true), (2, false), (1, true), (0, false)],
        &[],
    ];
    for initial in [0x00u8, 0xEC, 0xFF, 0x13, 0x48] {
        for run in runs {
            let mut bus = SimBus::with(&[(0x80, initial)]);
            let before = bus.registers;
            let mut expected = initial;
            for &(which, on) in run {
                toggle(&mut bus, which, on);
                expected = if on { expected | masks[which] } else { expected & !masks[which] };
                assert_eq!(bus.registers[0x80], expected);
            }
            assert_eq!(bus.registers[0x80] & 0xEC, initial & 0xEC);
            assert!(differing(&before, &bus.registers).iter().all(|&i| i == 0x80));
        }
    }
}

#[test]
fn enable_setters_settle_on_the_last_toggle() {
    let mut bus = SimBus::with(&[(0x80, 0xEC)]);
    toggle(&mut bus, 0, true);
    toggle(&mut bus, 2, true);
    toggle(&mut bus, 0, false);
    toggle(&mut bus, 1, true);
    toggle(&mut bus, 2, false);
    toggle(&mut bus, 2, true);
    assert_eq!(bus.registers[0x80], 0xEC | 0x02 | 0x10);
}

#[test]
fn atime_is_one_write() {
    for value in [0u8, 100, 255] {
        let mut bus = SimBus::new();
        bus.run(as7341_atime_config(value));
        assert_eq!(bus.log, vec![write(0x81, value)]);
    }
}

#[test]
fn astep_writes_low_byte_then_high_byte() {
    for (value, low, high) in [(0u16, 0x00u8, 0x00u8), (999, 0xE7, 0x03), (65535, 0xFF, 0xFF)] {
        let mut bus = SimBus::new();
        bus.run(as7341_astep_config(value));
        assert_eq!(bus.log, vec![write(0xCA, low), write(0xCB, high)]);
        assert_eq!(low, (value & 0xFF) as u8);
        assert_eq!(high, ((value >> 8) & 0xFF) as u8);
    }
}

#[test]
fn astep_splits_an_uneven_value() {
    let mut bus = SimBus::new();
    bus.run(as7341_astep_config(0x1234));
    assert_eq!(bus.log, vec![write(0xCA, 0x34), write(0xCB, 0x12)]);
}

#[test]
fn again_clamps_to_10() {
    for (value, code) in [(0u8, 0u8), (5, 5), (10, 10), (11, 10), (255, 10)] {
        let mut bus = SimBus::new();
        bus.run(as7341_again_config(value));
        assert_eq!(bus.log, vec![write(0xAA, code)]);
        assert_eq!(bus.registers[0xAA], code);
    }
}

#[test]
fn config_writes_the_mode_in_bank_1() {
    let mut bus = SimBus::with(&[(0xA9, 0x04), (0x70, 0xAB)]);
    let done = bus.run(as7341_config(0));
    assert_eq!(done.outcome(), Some(Ok(())));
    assert_eq!(
        bus.log,
        vec![
            read(0xA9),
            write(0xA9, 0x14),
            read(0x70),
            write(0x70, 0xA8),
            read(0xA9),
            write(0xA9, 0x04),
        ]
    );
    let mut bus = SimBus::with(&[(0xA9, 0x14), (0x70, 0xA8)]);
    bus.run(as7341_config(2));
    assert_eq!(bus.registers[0x70], 0xAA);
    assert_eq!(bus.registers[0xA9], 0x04);
}

#[test]
fn enable_leds_on_sets_bit_3_of_config() {
    let mut bus = SimBus::with(&[(0xA9, 0x00), (0x70, 0x41), (0x74, 0x93)]);
    bus.run(as7341_enable_leds(true));
    assert_eq!(
        bus.log,
        vec![
            read(0xA9),
            write(0xA9, 0x10),
            read(0x70),
            read(0x74),
            write(0x70, 0x49),
            read(0xA9),
            write(0xA9, 0x00),
        ]
    );
    assert_eq!(bus.registers[0x74], 0x93);
}

#[test]
fn enable_leds_off_clears_bit_3_and_writes_the_led_register() {
    let mut bus = SimBus::with(&[(0xA9, 0x00), (0x70, 0x49), (0x74, 0x93)]);
    bus.run(as7341_enable_leds(false));
    assert_eq!(
        bus.log,
        vec![
            read(0xA9),
            write(0xA9, 0x10),
            read(0x70),
            read(0x74),
            write(0x74, 0x41),
            write(0x70, 0x41),
            read(0xA9),
            write(0xA9, 0x00),
        ]
    );
    assert_eq!(bus.registers[0x70], 0x41);
    assert_eq!(bus.registers[0x74], 0x41);
}

#[test]
fn control_leds_writes_the_clamped_current() {
    let cases = [
        (true, 0u8, 0x80u8),
        (true, 1, 0x80),
        (true, 2, 0x81),
        (true, 18, 0x91),
        (true, 20, 0x93),
        (true, 21, 0x93),
        (true, 255, 0x93),
        (false, 0, 0x00),
        (false, 1, 0x00),
        (false, 18, 0x11),
        (false, 20, 0x13),
        (false, 200, 0x13),
    ];
    for (led, current, byte) in cases {
        let mut bus = SimBus::with(&[(0xA9, 0x01)]);
        bus.run(as7341_control_leds(led, current));
        assert_eq!(
            bus.log,
            vec![read(0xA9), write(0xA9, 0x11), write(0x74, byte), read(0xA9), write(0xA9, 0x01)]
        );
    }
}

#[test]
fn get_channel_data_reads_low_then_high() {
    for index in 0u8..4 {
        let low = 0x95 + 2 * index;
        let high = 0x96 + 2 * index;
        let mut bus = SimBus::with(&[(low, 0x12), (high, 0x34)]);
        let done = bus.run(as7341_get_channel_data(index));
        assert_eq!(bus.log, vec![read(low), read(high)]);
        assert_eq!(done.samples(), &vec![0x12, 0x34]);
        assert_eq!(channel_readings(done.samples()), vec![0x3412]);
    }
}

#[test]
fn read_spectral_data_reads_four_channels() {
    let pairs: Vec<(u8, u8)> = (0u8..8).map(|i| (0x95 + i, 0x10 * (i + 1))).collect();
    for script in [as7341_read_spectral_data_one(), as7341_read_spectral_data_two()] {
        let mut bus = SimBus::with(&pairs);
        let done = bus.run(script);
        assert_eq!(bus.log, (0u8..8).map(|i| read(0x95 + i)).collect::<Vec<_>>());
        assert_eq!(done.outcome(), Some(Ok(())));
        assert_eq!(channel_readings(done.samples()), vec![0x2010, 0x4030, 0x6050, 0x8070]);
    }
}

fn table_writes_in(log: &[BusRequest]) -> Vec<(u8, u8)> {
    log.iter()
        .filter_map(|request| match *request {
            BusRequest::WriteByte { register, value } if register < 0x14 => Some((register, value)),
            _ => None,
        })
        .collect()
}

#[test]
fn start_measure_mode_0_writes_group_a_in_ascending_order() {
    let mut bus = SimBus::with(&[(0xA3, 0x40)]);
    let done = bus.run(as7341_start_measure(0).unwrap());
    assert_eq!(done.outcome(), Some(Ok(())));
    let expected: Vec<(u8, u8)> = (0u8..20).map(|i| (i, SMUX_A[i as usize])).collect();
    assert_eq!(table_writes_in(&bus.log), expected);
    assert_eq!(&bus.registers[0..20], &SMUX_A[..]);
    for i in 0..20 {
        assert_eq!(bus.log[5 + i], write(i as u8, SMUX_A[i]));
    }
}

#[test]
fn start_measure_mode_1_writes_group_b_in_ascending_order() {
    let mut bus = SimBus::with(&[(0xA3, 0x40)]);
    let done = bus.run(as7341_start_measure(1).unwrap());
    assert_eq!(done.outcome(), Some(Ok(())));
    let expected: Vec<(u8, u8)> = (0u8..20).map(|i| (i, SMUX_B[i as usize])).collect();
    assert_eq!(table_writes_in(&bus.log), expected);
    assert_eq!(&bus.registers[0..20], &SMUX_B[..]);
}

#[test]
fn start_measure_refuses_any_other_mode() {
    for mode in [2u8, 3, 128, 255] {
        assert_eq!(as7341_start_measure(mode), Err(DriverError::InvalidMode));
    }
}

#[test]
fn start_measure_walks_the_whole_sequence() {
    let mut bus = SimBus::with(&[(0xA9, 0x34), (0x80, 0x43), (0x70, 0x0B), (0xA3, 0x40)]);
    let done = bus.run(as7341_start_measure(0).unwrap());
    assert_eq!(done.outcome(), Some(Ok(())));
    let mut expected = vec![
        read(0xA9),
        write(0xA9, 0x24),
        read(0x80),
        write(0x80, 0x41),
        write(0xAF, 0x10),
    ];
    expected.extend((0u8..20).map(|i| write(i, SMUX_A[i as usize])));
    expected.extend([
        read(0x80),
        write(0x80, 0x51),
        read(0xA9),
        write(0xA9, 0x34),
        read(0x70),
        write(0x70, 0x08),
        read(0xA9),
        write(0xA9, 0x24),
        read(0x80),
        write(0x80, 0x53),
        read(0xA3),
    ]);
    assert_eq!(bus.log, expected);
    assert_eq!(bus.registers[0x80], 0x53);
    assert_eq!(bus.registers[0xA9], 0x24);
    assert_eq!(bus.registers[0x70], 0x08);
    assert_eq!(bus.registers[0xAF], 0x10);
}

#[test]
fn start_measure_polls_three_more_times_before_the_channels_are_read() {
    let mut bus = SimBus::new();
    bus.status = vec![0x00, 0x3F, 0x80, 0x40];
    for i in 0u8..8 {
        bus.registers[0x95 + i as usize] = i + 1;
    }
    let done = bus.run(as7341_start_measure(1).unwrap());
    assert_eq!(done.outcome(), Some(Ok(())));
    assert_eq!(bus.log.len(), 35 + 7);
    assert_eq!(
        &bus.log[35..],
        &[
            read(0xA3),
            BusRequest::Delay { millis: 100 },
            read(0xA3),
            BusRequest::Delay { millis: 100 },
            read(0xA3),
            BusRequest::Delay { millis: 100 },
            read(0xA3),
        ]
    );
    let delays = bus.log.iter().filter(|r| matches!(r, BusRequest::Delay { .. })).count();
    assert_eq!(delays, 3);
    assert!(bus.status.is_empty());
    let read_out = bus.run(as7341_read_spectral_data_two());
    assert_eq!(channel_readings(read_out.samples()), vec![0x0201, 0x0403, 0x0605, 0x0807]);
    assert_eq!(bus.log.len(), 35 + 7 + 8);
}

#[test]
fn start_measure_does_not_wait_when_the_measurement_is_complete() {
    let mut bus = SimBus::with(&[(0xA3, 0xFF)]);
    bus.run(as7341_start_measure(0).unwrap());
    assert_eq!(bus.log.len(), 36);
    assert!(bus.log.iter().all(|r| !matches!(r, BusRequest::Delay { .. })));
}

#[test]
fn a_transport_failure_ends_the_sequence_where_it_occurs() {
    for fail_at in [0usize, 1, 4, 17, 35] {
        let mut bus = SimBus::with(&[(0xA3, 0x40)]);
        bus.fail_at = Some(fail_at);
        let mut done = bus.run(as7341_start_measure(0).unwrap());
        assert_eq!(done.outcome(), Some(Err(DriverError::Transport)));
        assert_eq!(bus.log.len(), fail_at + 1);
        assert_eq!(done.request(), None);
        assert_eq!(done.step(BusReply::Done), None);
        assert_eq!(done.step(BusReply::Byte { value: 0x40 }), None);
        assert_eq!(done.outcome(), Some(Err(DriverError::Transport)));
    }
}

#[test]
fn a_transport_failure_during_a_delay_ends_the_sequence() {
    let mut bus = SimBus::new();
    bus.fail_at = Some(36);
    let done = bus.run(as7341_start_measure(0).unwrap());
    assert_eq!(bus.log[36], BusRequest::Delay { millis: 100 });
    assert_eq!(done.outcome(), Some(Err(DriverError::Transport)));
    assert_eq!(bus.log.len(), 37);
}
