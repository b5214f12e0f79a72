use dual_wire::compressor::Command;
use dual_wire::secop::{Compressor, Faults, Request, Status};

type FaultCase = (u16, fn(&Faults) -> bool);

#[test]
fn lib_request_frames_match() {
    let cases: [(Command, [u8; 5]); 12] = [
        (Command::new(0xC3, 3000, 0x83), [0xA5, 0xC3, 0xB8, 0x0B, 0xD5]),
        (Command::new(0x3C, 0x3980, 0x80), [0xA5, 0x3C, 0x80, 0x39, 0x66]),
        (Command::new(0x3C, 0x3982, 0x82), [0xA5, 0x3C, 0x82, 0x39, 0x64]),
        (Command::new(0x3C, 0x3983, 0x83), [0xA5, 0x3C, 0x83, 0x39, 0x63]),
        (Command::new(0x3C, 0x3986, 0x86), [0xA5, 0x3C, 0x86, 0x39, 0x60]),
        (Command::new(0x3C, 0x3988, 0x88), [0xA5, 0x3C, 0x88, 0x39, 0x5E]),
        (Command::new(0x3B, 0x0100, 0x00), [0xA5, 0x3B, 0x00, 0x01, 0x1F]),
        (Command::new(0x3B, 0x0101, 0x01), [0xA5, 0x3B, 0x01, 0x01, 0x1E]),
        (Command::new(0x3B, 0x0102, 0x02), [0xA5, 0x3B, 0x02, 0x01, 0x1D]),
        (Command::new(0x3B, 0x0103, 0x03), [0xA5, 0x3B, 0x03, 0x01, 0x1C]),
        (Command::new(0x3E, 0x000E, 0x3E), [0xA5, 0x3E, 0x0E, 0x00, 0x0F]),
        (Command::new(0x3F, 0x0001, 0x3F), [0xA5, 0x3F, 0x01, 0x00, 0x1B]),
    ];
    for (cmd, expected) in cases {
        assert_eq!(cmd.encode(), expected, "frame mismatch for {cmd:?}");
    }
}

#[test]
fn lib_status_words_match() {
    assert_eq!(
        Status::from_bits(0x0000),
        Status {
            running: true,
            faults: None,
        }
    );
    assert_eq!(
        Status::from_bits(0xFF00),
        Status {
            running: false,
            faults: None,
        }
    );

    let running_hot = Status::from_bits(0x0020);
    assert!(running_hot.running);
    assert!(running_hot.faults.unwrap().over_temperature);

    let running_out_of_range = Status::from_bits(0x0080);
    assert!(running_out_of_range.running);
    assert!(running_out_of_range.faults.unwrap().speed_out_of_range);

    let stopped: [FaultCase; 6] = [
        (0xFF01, |f| f.start_fail),
        (0xFF04, |f| f.under_speed),
        (0xFF08, |f| f.wrong_rotor_position),
        (0xFF10, |f| f.motor_cable_fail),
        (0xFF20, |f| f.over_temperature),
        (0xFF40, |f| f.serial_fail),
    ];
    for (raw, is_set) in stopped {
        let s = Status::from_bits(raw);
        assert!(!s.running, "{raw:#06X} should read as stopped");
        assert!(is_set(&s.faults.unwrap()), "wrong fault for {raw:#06X}");
    }

    // 0xFF02 is documented as "not used".
    assert_eq!(Status::from_bits(0xFF02).faults, Some(Faults::default()));
}

#[test]
fn secop_requests_use_the_command_table() {
    let cases: [(Request, [u8; 5]); 7] = [
        (Request::SetSpeed(3000), [0xA5, 0xC3, 0xB8, 0x0B, 0xD5]),
        (Request::ReadSetSpeed, [0xA5, 0x3C, 0x80, 0x39, 0x66]),
        (Request::ReadPower, [0xA5, 0x3C, 0x82, 0x39, 0x64]),
        (Request::ReadStatus, [0xA5, 0x3C, 0x83, 0x39, 0x63]),
        (Request::ReadActualSpeed, [0xA5, 0x3C, 0x86, 0x39, 0x60]),
        (Request::ReadTemperature, [0xA5, 0x3C, 0x88, 0x39, 0x5E]),
        (Request::ReadInputVoltage, [0xA5, 0x3B, 0x01, 0x01, 0x1E]),
    ];
    for (req, expected) in cases {
        assert_eq!(req.command().encode(), expected, "frame mismatch for {req:?}");
    }
}

#[test]
fn secop_faults_combine() {
    let s = Status::from_bits(0xFF81);
    assert!(!s.running);
    assert_eq!(
        s.faults,
        Some(Faults { start_fail: true, speed_out_of_range: true, ..Faults::default() })
    );
}

#[test]
fn compressor_gives_back_its_halves() {
    let c = Compressor::new("tx", "rx");
    assert_eq!(c.release(), ("tx", "rx"));
}
