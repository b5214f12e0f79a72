use dual_wire::dwi::{
    finish_exchange, validate, Command, CommunicationError, Config, Driver, Error, Exchange,
    Faults, OperationStatus, ResponseError,
};

#[test]
fn request_checksums() {
    let cases: [(&Command, u8); 12] = [
        (&Command::set_speed(3000), 0xD5),
        (&Command::read_set_speed(), 0x66),
        (&Command::read_operation_status(), 0x63),
        (&Command::read_actual_speed(), 0x60),
        (&Command::read_power(), 0x64),
        (&Command::read_temperature(), 0x5E),
        (&Command::read_config_data(), 0x1F),
        (&Command::read_input_voltage(), 0x1E),
        (&Command::read_temperature_alt(), 0x1D),
        (&Command::read_power_alt(), 0x1C),
        (&Command::read_status_i(), 0x0F),
        (&Command::read_status_ii(), 0x1B),
    ];
    for (c, expected_ck) in cases {
        let frame = c.encode();
        assert_eq!(
            frame[4], expected_ck,
            "checksum mismatch for cmd {:#04X} {:#04X} {:#04X}",
            c.cmd, c.lo, c.hi
        );
        assert!(validate(&frame));
    }
}

/// A single corrupted bit fails validation.
#[test]
fn validate_rejects_corruption() {
    let mut frame = Command::read_set_speed().encode();
    assert!(validate(&frame));
    frame[2] ^= 0x01;
    assert!(!validate(&frame));
}

#[test]
fn every_single_bit_error_is_detected() {
    let frame = Command::set_speed(2200).encode();
    for i in 0..5 {
        for b in 0..8 {
            let mut f = frame;
            f[i] ^= 1u8 << b;
            assert!(!validate(&f), "flip of bit {b} in byte {i} went unnoticed");
        }
    }
}

#[test]
fn set_speed_places_rpm_little_endian() {
    let c = Command::set_speed(3000);
    assert_eq!((c.cmd, c.lo, c.hi, c.expect), (0xC3, 0xB8, 0x0B, 0x83));
    assert_eq!(c.encode(), [0xA5, 0xC3, 0xB8, 0x0B, 0xD5]);
}

#[test]
fn fixed_acknowledgements_are_accepted() {
    assert_eq!(Command::read_config_data().validate_response(&[0x5A, 0x00, 0x00, 0x00, 0xA6]), Ok(()));
    assert_eq!(Command::read_status_i().validate_response(&[0x5A, 0x3E, 0x00, 0x00, 0x68]), Ok(()));
    assert_eq!(Command::read_status_ii().validate_response(&[0x5A, 0x3F, 0x00, 0x00, 0x67]), Ok(()));
}

#[test]
fn response_validation_follows_check_order() {
    let c = Command::read_operation_status();
    assert_eq!(c.validate_response(&[0xA5, 0x83, 0x00, 0x00, 0xD8]), Err(ResponseError::RxId));
    assert_eq!(c.validate_response(&[0x5A, 0x83, 0x00, 0x00, 0x00]), Err(ResponseError::Integrity));
    assert_eq!(
        c.validate_response(&[0x5A, 0xF8, 0xFF, 0xFF, 0xB0]),
        Err(ResponseError::Communication(CommunicationError::DataLow))
    );
    assert_eq!(c.validate_response(&[0x5A, 0x80, 0x00, 0x00, 0x26]), Err(ResponseError::InvalidResponse));
    assert_eq!(c.validate_response(&[0x5A, 0x83, 0x00, 0x00, 0x23]), Ok(()));
}

#[test]
fn exchange_outcomes() {
    let c = Command::read_set_speed();
    let good = [0x5A, 0x80, 0xB8, 0x0B, 0x63];
    assert_eq!(finish_exchange(&c, &Exchange::TimedOut), Err(Error::Timeout));
    assert_eq!(
        finish_exchange(&c, &Exchange::Completed { read_ok: false, write_ok: false, response: good }),
        Err(Error::Read)
    );
    assert_eq!(
        finish_exchange(&c, &Exchange::Completed { read_ok: true, write_ok: false, response: good }),
        Err(Error::Write)
    );
    assert_eq!(
        finish_exchange(&c, &Exchange::Completed { read_ok: true, write_ok: true, response: good }),
        Ok([0xB8, 0x0B])
    );
    let wrong = [0x5A, 0x83, 0xB8, 0x0B, 0x60];
    assert_eq!(
        finish_exchange(&c, &Exchange::Completed { read_ok: true, write_ok: true, response: wrong }),
        Err(Error::Response(ResponseError::InvalidResponse))
    );
}

#[test]
fn operation_status_words() {
    assert_eq!(OperationStatus::from_bits(0x0000), OperationStatus { running: true, faults: None });
    assert_eq!(OperationStatus::from_bits(0xFF00), OperationStatus { running: false, faults: None });
    let s = OperationStatus::from_bits(0xFF41);
    assert!(!s.running);
    assert_eq!(
        s.faults,
        Some(Faults { start_fail: true, serial_fail: true, ..Faults::default() })
    );
    let s = OperationStatus::from_bits(0x0010);
    assert!(s.running);
    assert_eq!(s.faults, Some(Faults { motor_cable_fail: true, ..Faults::default() }));
}

#[test]
fn default_config_waits_half_a_second() {
    assert_eq!(Config::default().response_timeout_ms, 500);
}

#[test]
fn driver_keeps_its_configuration() {
    let mut d = Driver::new(1u8, 2u8, 3u8, Config { response_timeout_ms: 250 });
    assert_eq!(d.config().response_timeout_ms, 250);
    let (tx, rx, delay) = d.io_mut();
    assert_eq!((*tx, *rx, *delay), (1, 2, 3));
}
