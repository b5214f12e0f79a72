//! Dual Wire Interface (DWI) driver for Embraco CF10B inverters.

use vstd::prelude::*;

use crate::compressor::command::{Command, CommandFields};
use crate::compressor::driver::Driver;
use crate::wire::{high_byte, low_byte};

pub use crate::compressor::error::Error;
pub use crate::dwi::driver::Config;

verus! {

/// Operation status of the inverter.
#[derive(Debug, Clone, Copy, PartialEq, Eq)]
pub struct Status {
    /// Whether the compressor is running.
    pub running: bool,
    /// Faults, or `None` if no fault bit is set.
    pub faults: Option<Faults>,
}

impl Status {
    /// The status an operation-status word reports: the high byte is zero
    /// while the compressor runs, the low byte holds the fault bits.
    pub open spec fn of_word(raw: u16) -> Status {
        Status { running: high_byte(raw) == 0, faults: Faults::of_bits(low_byte(raw)) }
    }

    /// Decode an operation-status word.
    pub fn from_bits(raw: u16) -> (s: Self)
        ensures
            s == Self::of_word(raw),
    {
        assert((raw & 0xFF00 == 0) == (raw / 256 == 0) && (raw & 0x00FF) as u8 == raw % 256)
            by (bit_vector);
        Self { running: raw & 0xFF00 == 0, faults: Faults::from_bits((raw & 0x00FF) as u8) }
    }
}

/// Fault flags reported by the inverter.
///
/// Whether a fault stopped the compressor is carried by [`Status::running`],
/// not by these flags: `overload` while running is the protection engaging.
#[derive(Debug, Clone, Copy, PartialEq, Eq, Default)]
pub struct Faults {
    /// `0x01` start fail.
    pub start_fail: bool,
    /// `0x02` overload, or overload protection when still running.
    pub overload: bool,
    /// `0x04` under speed (1550 RPM or lower).
    pub under_speed: bool,
    /// `0x08` wrong rotor position.
    pub wrong_rotor_position: bool,
    /// `0x10` overvoltage.
    pub overvoltage: bool,
    /// `0x20` over-temperature (above 105 °C).
    pub over_temperature: bool,
    /// `0x80` set speed out of range.
    pub speed_out_of_range: bool,
}

impl Faults {
    /// The flags a fault byte sets; `None` when no bit is set. Bit `0x40`
    /// names no fault of this inverter.
    pub open spec fn of_bits(bits: u8) -> Option<Faults> {
        if bits == 0 {
            None
        } else {
            Some(
                Faults {
                    start_fail: bits & 0x01 != 0,
                    overload: bits & 0x02 != 0,
                    under_speed: bits & 0x04 != 0,
                    wrong_rotor_position: bits & 0x08 != 0,
                    overvoltage: bits & 0x10 != 0,
                    over_temperature: bits & 0x20 != 0,
                    speed_out_of_range: bits & 0x80 != 0,
                },
            )
        }
    }

    /// Decode a fault byte; `None` when no fault bit is set.
    pub fn from_bits(bits: u8) -> (f: Option<Self>)
        ensures
            f == Self::of_bits(bits),
    {
        if bits == 0 {
            return None;
        }
        Some(
            Self {
                start_fail: bits & 0x01 != 0,
                overload: bits & 0x02 != 0,
                under_speed: bits & 0x04 != 0,
                wrong_rotor_position: bits & 0x08 != 0,
                overvoltage: bits & 0x10 != 0,
                over_temperature: bits & 0x20 != 0,
                speed_out_of_range: bits & 0x80 != 0,
            },
        )
    }
}

/// Each fault flag is its documented bit of the fault byte (bit value shown
/// on the field), and a zero byte reports no fault at all.
pub proof fn lemma_fault_bits(b: u8)
    ensures
        Faults::of_bits(b) is None <==> b == 0,
        b != 0 ==> (Faults::of_bits(b) matches Some(f) && f.start_fail == ((b / 1) % 2 == 1) && f.overload == ((b / 2) % 2 == 1) && f.under_speed == ((b / 4) % 2 == 1) && f.wrong_rotor_position == ((b / 8) % 2 == 1) && f.overvoltage == ((b / 16) % 2 == 1) && f.over_temperature == ((b / 32) % 2 == 1) && f.speed_out_of_range == ((b / 128) % 2 == 1)),
{
    assert((b & 0x01 != 0) == ((b / 1) % 2 == 1) && (b & 0x02 != 0) == ((b / 2) % 2 == 1) && (b & 0x04 != 0) == ((b / 4) % 2 == 1) && (b & 0x08 != 0) == ((b / 8) % 2 == 1) && (b & 0x10 != 0) == ((b / 16) % 2 == 1) && (b & 0x20 != 0) == ((b / 32) % 2 == 1) && (b & 0x80 != 0) == ((b / 128) % 2 == 1)) by (bit_vector);
}

/// A status word reports running exactly when its high byte is zero, and
/// reports faults exactly when its low byte is not zero; the faults are those
/// of the low byte.
pub proof fn lemma_status_word(raw: u16)
    ensures
        Status::of_word(raw).running <==> raw < 0x100,
        Status::of_word(raw).faults is None <==> raw % 256 == 0,
        Status::of_word(raw).faults == Faults::of_bits((raw % 256) as u8),
{
}

/// The fault bits read the same whether the compressor runs or stopped:
/// only the high byte of the word tells the two apart.
pub proof fn lemma_faults_independent_of_running(bits: u8)
    ensures
        Status::of_word(bits as u16).running,
        !Status::of_word((0xFF00 + bits) as u16).running,
        Status::of_word(bits as u16).faults == Status::of_word((0xFF00 + bits) as u16).faults,
        Status::of_word(bits as u16).faults == Faults::of_bits(bits),
{
}

/// Embraco CF10B inverter driver.
pub struct Inverter<TX, RX, D> {
    inner: Driver<TX, RX>,
    delay: D,
    cfg: Config,
}

impl<TX, RX, D> Inverter<TX, RX, D> {
    /// The serial halves, the delay provider and the configuration held.
    pub closed spec fn parts(&self) -> (TX, RX, D, Config) {
        (self.inner.halves().0, self.inner.halves().1, self.delay, self.cfg)
    }

    /// Create a driver.
    pub fn new(tx: TX, rx: RX, delay: D, cfg: Config) -> (inv: Self)
        ensures
            inv.parts() == (tx, rx, delay, cfg),
    {
        Self { inner: Driver::new(tx, rx), delay, cfg }
    }

    /// Release the serial halves and the delay provider.
    pub fn release(self) -> (r: (TX, RX, D))
        ensures
            r == (self.parts().0, self.parts().1, self.parts().2),
    {
        let (tx, rx) = self.inner.release();
        (tx, rx, self.delay)
    }

    /// Borrow the serial driver for one transaction.
    pub fn driver_mut(&mut self) -> (d: &mut Driver<TX, RX>)
        ensures
            d.halves() == (old(self).parts().0, old(self).parts().1),
            final(self).parts() == (final(d).halves().0, final(d).halves().1, old(self).parts().2,
                old(self).parts().3),
    {
        &mut self.inner
    }
}

/// The requests this inverter understands.
#[derive(Debug, Clone, Copy, PartialEq, Eq)]
pub enum Request {
    /// Set the speed (RPM); the answer is the resulting status word.
    SetSpeed(u16),
    /// Read the currently set speed (RPM).
    ReadSetSpeed,
    /// Read the operation-status word.
    ReadStatus,
    /// Read the power consumption (W).
    ReadPower,
    /// Read the inverter temperature in 0.1 °C.
    ReadTemperature,
    /// Read the number of starting trials.
    ReadStartingTrials,
    /// Read the DC bus voltage (V).
    ReadBusVoltage,
    /// Read the active power limitation (W).
    ReadPowerLimitation,
    /// Choose whether a serial set speed overrides the thermostat set point.
    SetSpeedOverwrite(bool),
}

impl Request {
    /// Command byte, data word and expected response code of each request.
    pub open spec fn fields(self) -> CommandFields {
        match self {
            Request::SetSpeed(rpm) => CommandFields { cmd: 0xC3, data: rpm, expect: 0x83 },
            Request::ReadSetSpeed => CommandFields { cmd: 0x3C, data: 0x3980, expect: 0x80 },
            Request::ReadStatus => CommandFields { cmd: 0x3C, data: 0x3983, expect: 0x83 },
            Request::ReadPower => CommandFields { cmd: 0x3C, data: 0x3982, expect: 0x82 },
            Request::ReadTemperature => CommandFields { cmd: 0x3C, data: 0x3988, expect: 0x88 },
            Request::ReadStartingTrials => CommandFields { cmd: 0x3C, data: 0x3981, expect: 0x81 },
            Request::ReadBusVoltage => CommandFields { cmd: 0x3C, data: 0x3984, expect: 0x84 },
            Request::ReadPowerLimitation => CommandFields {
                cmd: 0x3C,
                data: 0x398A,
                expect: 0x8A,
            },
            Request::SetSpeedOverwrite(enable) => CommandFields {
                cmd: 0x69,
                data: if enable {
                    0x9301
                } else {
                    0x9300
                },
                expect: 0xC3,
            },
        }
    }

    /// The command that carries this request.
    pub fn command(&self) -> (c: Command)
        ensures
            c@ == self.fields(),
    {
        match *self {
            Request::SetSpeed(rpm) => Command::new(0xC3, rpm, 0x83),
            Request::ReadSetSpeed => Command::new(0x3C, 0x3980, 0x80),
            Request::ReadStatus => Command::new(0x3C, 0x3983, 0x83),
            Request::ReadPower => Command::new(0x3C, 0x3982, 0x82),
            Request::ReadTemperature => Command::new(0x3C, 0x3988, 0x88),
            Request::ReadStartingTrials => Command::new(0x3C, 0x3981, 0x81),
            Request::ReadBusVoltage => Command::new(0x3C, 0x3984, 0x84),
            Request::ReadPowerLimitation => Command::new(0x3C, 0x398A, 0x8A),
            Request::SetSpeedOverwrite(enable) => {
                let data: u16 = if enable {
                    0x9301
                } else {
                    0x9300
                };
                Command::new(0x69, data, 0xC3)
            },
        }
    }
}

/// Every register read (each request but the two settings) is command `0x3C`
/// with data `0x39` and the register number, and expects the answer to carry
/// that register number; setting the speed sends the RPM and expects `0x83`;
/// the speed-overwrite setting sends `0x93` and the requested state, and
/// expects `0xC3`.
pub proof fn lemma_request_table_shape(r: Request)
    ensures
        !(r is SetSpeed) && !(r is SetSpeedOverwrite) ==> {
            &&& r.fields().cmd == 0x3C
            &&& r.fields().data / 256 == 0x39
            &&& r.fields().expect == r.fields().data % 256
        },
        r matches Request::SetSpeed(rpm) ==> r.fields().cmd == 0xC3 && r.fields().data == rpm
            && r.fields().expect == 0x83,
        r matches Request::SetSpeedOverwrite(enable) ==> r.fields().cmd == 0x69
            && r.fields().data / 256 == 0x93 && r.fields().data % 256 == (if enable {
            1int
        } else {
            0int
        }) && r.fields().expect == 0xC3,
{
}

/// The register each read asks for: set speed `0x80`, starting trials `0x81`,
/// power `0x82`, status `0x83`, bus voltage `0x84`, temperature `0x88`,
/// power limitation `0x8A`.
pub proof fn lemma_register_map()
    ensures
        Request::ReadSetSpeed.fields().data % 256 == 0x80,
        Request::ReadStartingTrials.fields().data % 256 == 0x81,
        Request::ReadPower.fields().data % 256 == 0x82,
        Request::ReadStatus.fields().data % 256 == 0x83,
        Request::ReadBusVoltage.fields().data % 256 == 0x84,
        Request::ReadTemperature.fields().data % 256 == 0x88,
        Request::ReadPowerLimitation.fields().data % 256 == 0x8A,
{
}

/// Distinct requests are carried by distinct commands.
pub proof fn lemma_requests_distinct(r1: Request, r2: Request)
    requires
        r1 != r2,
    ensures
        r1.fields() != r2.fields(),
{
}

/// The speed-overwrite state an answer word reports: on when its low byte is
/// not zero. It need not match what was requested.
pub fn overwrite_state(word: u16) -> (enabled: bool)
    ensures
        enabled == (low_byte(word) != 0),
{
    assert((word & 0x00FF != 0) == (word % 256 != 0)) by (bit_vector);
    word & 0x00FF != 0
}

} // verus!
