//! Dual Wire Interface (DWI) driver for Secop CCD compressors (NLV/SLVE).

use vstd::prelude::*;

use crate::compressor::command::{Command, CommandFields};
use crate::compressor::driver::Driver;
use crate::wire::{high_byte, low_byte};

pub use crate::compressor::error::Error;

verus! {

/// Operation status of the compressor.
#[derive(Debug, Clone, Copy, PartialEq, Eq)]
pub struct Status {
    /// Whether the compressor is running.
    pub running: bool,
    /// Faults, or `None` if no fault bit is set.
    pub faults: Option<Faults>,
}

impl Status {
    /// The status an operation-status word reports: the high byte is zero
    /// while the compressor runs, the low byte holds the fault bits.
    pub open spec fn of_word(raw: u16) -> Status {
        Status { running: high_byte(raw) == 0, faults: Faults::of_bits(low_byte(raw)) }
    }

    /// Decode an operation-status word.
    pub fn from_bits(raw: u16) -> (s: Self)
        ensures
            s == Self::of_word(raw),
    {
        assert((raw & 0xFF00 == 0) == (raw / 256 == 0) && (raw & 0x00FF) as u8 == raw % 256)
            by (bit_vector);
        Self { running: raw & 0xFF00 == 0, faults: Faults::from_bits((raw & 0x00FF) as u8) }
    }
}

/// Fault flags reported by the compressor.
#[derive(Debug, Clone, Copy, PartialEq, Eq, Default)]
pub struct Faults {
    /// `0x01` start fail.
    pub start_fail: bool,
    /// `0x04` under speed.
    pub under_speed: bool,
    /// `0x08` wrong rotor position.
    pub wrong_rotor_position: bool,
    /// `0x10` motor cable fail.
    pub motor_cable_fail: bool,
    /// `0x20` over-temperature (PCB).
    pub over_temperature: bool,
    /// `0x40` serial fail.
    pub serial_fail: bool,
    /// `0x80` set speed out of range.
    pub speed_out_of_range: bool,
}

impl Faults {
    /// The flags a fault byte sets; `None` when no bit is set. Bit `0x02` is
    /// documented as not used.
    pub open spec fn of_bits(bits: u8) -> Option<Faults> {
        if bits == 0 {
            None
        } else {
            Some(
                Faults {
                    start_fail: bits & 0x01 != 0,
                    under_speed: bits & 0x04 != 0,
                    wrong_rotor_position: bits & 0x08 != 0,
                    motor_cable_fail: bits & 0x10 != 0,
                    over_temperature: bits & 0x20 != 0,
                    serial_fail: bits & 0x40 != 0,
                    speed_out_of_range: bits & 0x80 != 0,
                },
            )
        }
    }

    /// Decode a fault byte; `None` when no fault bit is set.
    pub fn from_bits(bits: u8) -> (f: Option<Self>)
        ensures
            f == Self::of_bits(bits),
    {
        if bits == 0 {
            return None;
        }
        Some(
            Self {
                start_fail: bits & 0x01 != 0,
                under_speed: bits & 0x04 != 0,
                wrong_rotor_position: bits & 0x08 != 0,
                motor_cable_fail: bits & 0x10 != 0,
                over_temperature: bits & 0x20 != 0,
                serial_fail: bits & 0x40 != 0,
                speed_out_of_range: bits & 0x80 != 0,
            },
        )
    }
}

/// Each fault flag is its documented bit of the fault byte (bit value shown
/// on the field), and a zero byte reports no fault at all.
pub proof fn lemma_fault_bits(b: u8)
    ensures
        Faults::of_bits(b) is None <==> b == 0,
        b != 0 ==> (Faults::of_bits(b) matches Some(f) && f.start_fail == ((b / 1) % 2 == 1) && f.under_speed == ((b / 4) % 2 == 1) && f.wrong_rotor_position == ((b / 8) % 2 == 1) && f.motor_cable_fail == ((b / 16) % 2 == 1) && f.over_temperature == ((b / 32) % 2 == 1) && f.serial_fail == ((b / 64) % 2 == 1) && f.speed_out_of_range == ((b / 128) % 2 == 1)),
{
    assert((b & 0x01 != 0) == ((b / 1) % 2 == 1) && (b & 0x04 != 0) == ((b / 4) % 2 == 1) && (b & 0x08 != 0) == ((b / 8) % 2 == 1) && (b & 0x10 != 0) == ((b / 16) % 2 == 1) && (b & 0x20 != 0) == ((b / 32) % 2 == 1) && (b & 0x40 != 0) == ((b / 64) % 2 == 1) && (b & 0x80 != 0) == ((b / 128) % 2 == 1)) by (bit_vector);
}

/// A status word reports running exactly when its high byte is zero, and
/// reports faults exactly when its low byte is not zero; the faults are those
/// of the low byte.
pub proof fn lemma_status_word(raw: u16)
    ensures
        Status::of_word(raw).running <==> raw < 0x100,
        Status::of_word(raw).faults is None <==> raw % 256 == 0,
        Status::of_word(raw).faults == Faults::of_bits((raw % 256) as u8),
{
}

/// The fault bits read the same whether the compressor runs or stopped:
/// only the high byte of the word tells the two apart.
pub proof fn lemma_faults_independent_of_running(bits: u8)
    ensures
        Status::of_word(bits as u16).running,
        !Status::of_word((0xFF00 + bits) as u16).running,
        Status::of_word(bits as u16).faults == Status::of_word((0xFF00 + bits) as u16).faults,
        Status::of_word(bits as u16).faults == Faults::of_bits(bits),
{
}

/// The unused bit `0x02` alone reports a fault word with no flag set.
pub proof fn lemma_unused_bit_sets_no_flag()
    ensures
        Faults::of_bits(0x02) == Some(
            Faults {
                start_fail: false,
                under_speed: false,
                wrong_rotor_position: false,
                motor_cable_fail: false,
                over_temperature: false,
                serial_fail: false,
                speed_out_of_range: false,
            },
        ),
{
    assert(0x02u8 & 0x01 == 0 && 0x02u8 & 0x04 == 0 && 0x02u8 & 0x08 == 0 && 0x02u8 & 0x10 == 0
        && 0x02u8 & 0x20 == 0 && 0x02u8 & 0x40 == 0 && 0x02u8 & 0x80 == 0) by (bit_vector);
}

/// Secop CCD compressor driver.
pub struct Compressor<TX, RX> {
    inner: Driver<TX, RX>,
}

impl<TX, RX> Compressor<TX, RX> {
    /// The serial halves held.
    pub closed spec fn halves(&self) -> (TX, RX) {
        self.inner.halves()
    }

    /// Create a driver.
    pub fn new(tx: TX, rx: RX) -> (c: Self)
        ensures
            c.halves() == (tx, rx),
    {
        Self { inner: Driver::new(tx, rx) }
    }

    /// Give back the serial halves.
    pub fn release(self) -> (r: (TX, RX))
        ensures
            r == self.halves(),
    {
        self.inner.release()
    }

    /// Borrow the serial driver for one transaction.
    pub fn driver_mut(&mut self) -> (d: &mut Driver<TX, RX>)
        ensures
            d.halves() == old(self).halves(),
            final(self).halves() == final(d).halves(),
    {
        &mut self.inner
    }
}

/// The requests this compressor understands.
#[derive(Debug, Clone, Copy, PartialEq, Eq)]
pub enum Request {
    /// Set the speed (RPM); the answer is the resulting status word.
    SetSpeed(u16),
    /// Read the currently set speed (RPM).
    ReadSetSpeed,
    /// Read the operation-status word.
    ReadStatus,
    /// Read the measured compressor speed (RPM).
    ReadActualSpeed,
    /// Read the power consumption (W).
    ReadPower,
    /// Read the compressor temperature in 0.1 °C.
    ReadTemperature,
    /// Read the input voltage (V).
    ReadInputVoltage,
}

impl Request {
    /// Command byte, data word and expected response code of each request.
    pub open spec fn fields(self) -> CommandFields {
        match self {
            Request::SetSpeed(rpm) => CommandFields { cmd: 0xC3, data: rpm, expect: 0x83 },
            Request::ReadSetSpeed => CommandFields { cmd: 0x3C, data: 0x3980, expect: 0x80 },
            Request::ReadStatus => CommandFields { cmd: 0x3C, data: 0x3983, expect: 0x83 },
            Request::ReadActualSpeed => CommandFields { cmd: 0x3C, data: 0x3986, expect: 0x86 },
            Request::ReadPower => CommandFields { cmd: 0x3C, data: 0x3982, expect: 0x82 },
            Request::ReadTemperature => CommandFields { cmd: 0x3C, data: 0x3988, expect: 0x88 },
            Request::ReadInputVoltage => CommandFields { cmd: 0x3B, data: 0x0101, expect: 0x01 },
        }
    }

    /// The command that carries this request.
    pub fn command(&self) -> (c: Command)
        ensures
            c@ == self.fields(),
    {
        match *self {
            Request::SetSpeed(rpm) => Command::new(0xC3, rpm, 0x83),
            Request::ReadSetSpeed => Command::new(0x3C, 0x3980, 0x80),
            Request::ReadStatus => Command::new(0x3C, 0x3983, 0x83),
            Request::ReadActualSpeed => Command::new(0x3C, 0x3986, 0x86),
            Request::ReadPower => Command::new(0x3C, 0x3982, 0x82),
            Request::ReadTemperature => Command::new(0x3C, 0x3988, 0x88),
            Request::ReadInputVoltage => Command::new(0x3B, 0x0101, 0x01),
        }
    }
}

/// Every register read of command `0x3C` sends data `0x39` and the register
/// number; input voltage is command `0x3B` with data `0x01 0x01`; every read
/// expects the answer to carry the low data byte it sent; setting the speed
/// sends the RPM and expects `0x83`.
pub proof fn lemma_request_table_shape(r: Request)
    ensures
        !(r is SetSpeed) ==> r.fields().expect == r.fields().data % 256,
        !(r is SetSpeed) && !(r is ReadInputVoltage) ==> r.fields().cmd == 0x3C
            && r.fields().data / 256 == 0x39,
        r is ReadInputVoltage ==> r.fields().cmd == 0x3B && r.fields().data == 0x0101,
        r matches Request::SetSpeed(rpm) ==> r.fields().cmd == 0xC3 && r.fields().data == rpm
            && r.fields().expect == 0x83,
{
}

/// The register each read asks for: set speed `0x80`, power `0x82`, status
/// `0x83`, actual speed `0x86`, temperature `0x88`.
pub proof fn lemma_register_map()
    ensures
        Request::ReadSetSpeed.fields().data % 256 == 0x80,
        Request::ReadPower.fields().data % 256 == 0x82,
        Request::ReadStatus.fields().data % 256 == 0x83,
        Request::ReadActualSpeed.fields().data % 256 == 0x86,
        Request::ReadTemperature.fields().data % 256 == 0x88,
{
}

/// Distinct requests are carried by distinct commands.
pub proof fn lemma_requests_distinct(r1: Request, r2: Request)
    requires
        r1 != r2,
    ensures
        r1.fields() != r2.fields(),
{
}

} // verus!
