use dual_wire::compressor::Command;
use dual_wire::embraco::{overwrite_state, Config, Faults, Inverter, Request, Status};
use dual_wire::wire::to_signed;

type FaultCase = (u16, fn(&Faults) -> bool);

#[test]
fn request_frames_match() {
    let cases: [(Command, [u8; 5]); 10] = [
        (Command::new(0xC3, 2000, 0x83), [0xA5, 0xC3, 0xD0, 0x07, 0xC1]),
        (Command::new(0x3C, 0x3980, 0x80), [0xA5, 0x3C, 0x80, 0x39, 0x66]),
        (Command::new(0x3C, 0x3981, 0x81), [0xA5, 0x3C, 0x81, 0x39, 0x65]),
        (Command::new(0x3C, 0x3982, 0x82), [0xA5, 0x3C, 0x82, 0x39, 0x64]),
        (Command::new(0x3C, 0x3983, 0x83), [0xA5, 0x3C, 0x83, 0x39, 0x63]),
        (Command::new(0x3C, 0x3984, 0x84), [0xA5, 0x3C, 0x84, 0x39, 0x62]),
        (Command::new(0x3C, 0x3988, 0x88), [0xA5, 0x3C, 0x88, 0x39, 0x5E]),
        (Command::new(0x3C, 0x398A, 0x8A), [0xA5, 0x3C, 0x8A, 0x39, 0x5C]),
        (Command::new(0x69, 0x9300, 0xC3), [0xA5, 0x69, 0x00, 0x93, 0x5F]),
        (Command::new(0x69, 0x9301, 0xC3), [0xA5, 0x69, 0x01, 0x93, 0x5E]),
    ];
    for (cmd, expected) in cases {
        assert_eq!(cmd.encode(), expected, "frame mismatch for {cmd:?}");
    }
}

#[test]
fn status_words_match() {
    assert_eq!(
        Status::from_bits(0x0000),
        Status {
            running: true,
            faults: None,
        }
    );
    assert_eq!(
        Status::from_bits(0xFF00),
        Status {
            running: false,
            faults: None,
        }
    );

    // Notes 1 and 2: the same bits appear with the compressor running.
    let overload_protection = Status::from_bits(0x0002);
    assert!(overload_protection.running);
    assert!(overload_protection.faults.unwrap().overload);

    let running_out_of_range = Status::from_bits(0x0080);
    assert!(running_out_of_range.running);
    assert!(running_out_of_range.faults.unwrap().speed_out_of_range);

    let stopped: [FaultCase; 7] = [
        (0xFF01, |f| f.start_fail),
        (0xFF02, |f| f.overload),
        (0xFF04, |f| f.under_speed),
        (0xFF08, |f| f.wrong_rotor_position),
        (0xFF10, |f| f.overvoltage),
        (0xFF20, |f| f.over_temperature),
        (0xFF80, |f| f.speed_out_of_range),
    ];
    for (raw, is_set) in stopped {
        let s = Status::from_bits(raw);
        assert!(!s.running, "{raw:#06X} should read as stopped");
        assert!(is_set(&s.faults.unwrap()), "wrong fault for {raw:#06X}");
    }
}

#[test]
fn embraco_requests_use_the_command_table() {
    let cases: [(Request, [u8; 5]); 10] = [
        (Request::SetSpeed(2000), [0xA5, 0xC3, 0xD0, 0x07, 0xC1]),
        (Request::ReadSetSpeed, [0xA5, 0x3C, 0x80, 0x39, 0x66]),
        (Request::ReadStartingTrials, [0xA5, 0x3C, 0x81, 0x39, 0x65]),
        (Request::ReadPower, [0xA5, 0x3C, 0x82, 0x39, 0x64]),
        (Request::ReadStatus, [0xA5, 0x3C, 0x83, 0x39, 0x63]),
        (Request::ReadBusVoltage, [0xA5, 0x3C, 0x84, 0x39, 0x62]),
        (Request::ReadTemperature, [0xA5, 0x3C, 0x88, 0x39, 0x5E]),
        (Request::ReadPowerLimitation, [0xA5, 0x3C, 0x8A, 0x39, 0x5C]),
        (Request::SetSpeedOverwrite(false), [0xA5, 0x69, 0x00, 0x93, 0x5F]),
        (Request::SetSpeedOverwrite(true), [0xA5, 0x69, 0x01, 0x93, 0x5E]),
    ];
    for (req, expected) in cases {
        assert_eq!(req.command().encode(), expected, "frame mismatch for {req:?}");
    }
    assert_eq!(Request::SetSpeedOverwrite(true).command(), Command::new(0x69, 0x9301, 0xC3));
}

#[test]
fn embraco_unused_bit_sets_no_flag() {
    assert_eq!(Status::from_bits(0xFF40).faults, Some(Faults::default()));
}

#[test]
fn overwrite_state_reads_the_low_byte() {
    assert!(!overwrite_state(0x0000));
    assert!(overwrite_state(0x0001));
    assert!(!overwrite_state(0x9300));
    assert!(overwrite_state(0x93C3));
}

#[test]
fn temperature_word_is_twos_complement() {
    assert_eq!(to_signed(0x00FA), 250);
    assert_eq!(to_signed(0xFFF6), -10);
    assert_eq!(to_signed(0x8000), i16::MIN);
    assert_eq!(to_signed(0x7FFF), i16::MAX);
}

#[test]
fn inverter_gives_back_its_parts() {
    let mut inv = Inverter::new(1u8, 2u8, 3u8, Config::default());
    {
        let d = inv.driver_mut();
        let (tx, _) = d.halves_mut();
        *tx = 4;
    }
    assert_eq!(inv.release(), (4, 2, 3));
}
