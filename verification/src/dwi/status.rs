//! Inverter operation status and its fault flags.

use vstd::prelude::*;

use crate::wire::{high_byte, low_byte};

verus! {

/// Inverter operation status and its fault flags.
#[derive(Debug, Clone, Copy, PartialEq, Eq)]
pub struct OperationStatus {
    /// Whether the compressor is running
    pub running: bool,
    /// Faults, or `None` if no fault bit is set
    pub faults: Option<Faults>,
}

impl OperationStatus {
    /// The status an operation-status word reports: the high byte is zero
    /// while the compressor runs, the low byte holds the fault bits.
    pub open spec fn of_word(raw: u16) -> OperationStatus {
        OperationStatus { running: high_byte(raw) == 0, faults: Faults::of_bits(low_byte(raw)) }
    }

    /// Decode the operation-status word: the high byte is zero while the
    /// compressor runs, the low byte holds the fault bits.
    pub fn from_bits(raw: u16) -> (s: Self)
        ensures
            s == Self::of_word(raw),
    {
        assert((raw & 0xFF00 == 0) == (raw / 256 == 0) && (raw & 0x00FF) as u8 == raw % 256)
            by (bit_vector);
        Self { running: raw & 0xFF00 == 0, faults: Faults::from_bits((raw & 0x00FF) as u8) }
    }
}

/// Fault flags derived from [`OperationStatus`].
#[derive(Debug, Clone, Copy, PartialEq, Eq, Default)]
pub struct Faults {
    /// `0x01`
    pub start_fail: bool,
    /// `0x04`
    pub under_speed: bool,
    /// `0x08`
    pub wrong_rotor_position: bool,
    /// `0x10`
    pub motor_cable_fail: bool,
    /// `0x20`
    pub over_temperature: bool,
    /// `0x40`
    pub serial_fail: bool,
    /// `0x80`
    pub speed_out_of_range: bool,
}

impl Faults {
    /// The flags a fault byte sets; `None` when no bit is set. Bit `0x02` is
    /// not a fault of this inverter.
    pub open spec fn of_bits(bits: u8) -> Option<Faults> {
        if bits == 0 {
            None
        } else {
            Some(
                Faults {
                    start_fail: bits & 0x01 != 0,
                    under_speed: bits & 0x04 != 0,
                    wrong_rotor_position: bits & 0x08 != 0,
                    motor_cable_fail: bits & 0x10 != 0,
                    over_temperature: bits & 0x20 != 0,
                    serial_fail: bits & 0x40 != 0,
                    speed_out_of_range: bits & 0x80 != 0,
                },
            )
        }
    }

    /// `None` when no fault bit is set.
    pub fn from_bits(bits: u8) -> (f: Option<Self>)
        ensures
            f == Self::of_bits(bits),
    {
        if bits == 0 {
            return None;
        }
        Some(
            Self {
                start_fail: bits & 0x01 != 0,
                under_speed: bits & 0x04 != 0,
                wrong_rotor_position: bits & 0x08 != 0,
                motor_cable_fail: bits & 0x10 != 0,
                over_temperature: bits & 0x20 != 0,
                serial_fail: bits & 0x40 != 0,
                speed_out_of_range: bits & 0x80 != 0,
            },
        )
    }
}

/// Each fault flag is its documented bit of the fault byte (bit value shown
/// on the field), and a zero byte reports no fault at all.
pub proof fn lemma_fault_bits(b: u8)
    ensures
        Faults::of_bits(b) is None <==> b == 0,
        b != 0 ==> (Faults::of_bits(b) matches Some(f) && f.start_fail == ((b / 1) % 2 == 1) && f.under_speed == ((b / 4) % 2 == 1) && f.wrong_rotor_position == ((b / 8) % 2 == 1) && f.motor_cable_fail == ((b / 16) % 2 == 1) && f.over_temperature == ((b / 32) % 2 == 1) && f.serial_fail == ((b / 64) % 2 == 1) && f.speed_out_of_range == ((b / 128) % 2 == 1)),
{
    assert((b & 0x01 != 0) == ((b / 1) % 2 == 1) && (b & 0x04 != 0) == ((b / 4) % 2 == 1) && (b & 0x08 != 0) == ((b / 8) % 2 == 1) && (b & 0x10 != 0) == ((b / 16) % 2 == 1) && (b & 0x20 != 0) == ((b / 32) % 2 == 1) && (b & 0x40 != 0) == ((b / 64) % 2 == 1) && (b & 0x80 != 0) == ((b / 128) % 2 == 1)) by (bit_vector);
}

/// A status word reports running exactly when its high byte is zero, and
/// reports faults exactly when its low byte is not zero; the faults are those
/// of the low byte.
pub proof fn lemma_status_word(raw: u16)
    ensures
        OperationStatus::of_word(raw).running <==> raw < 0x100,
        OperationStatus::of_word(raw).faults is None <==> raw % 256 == 0,
        OperationStatus::of_word(raw).faults == Faults::of_bits((raw % 256) as u8),
{
}

/// The fault bits read the same whether the compressor runs or stopped:
/// only the high byte of the word tells the two apart.
pub proof fn lemma_faults_independent_of_running(bits: u8)
    ensures
        OperationStatus::of_word(bits as u16).running,
        !OperationStatus::of_word((0xFF00 + bits) as u16).running,
        OperationStatus::of_word(bits as u16).faults == OperationStatus::of_word(
            (0xFF00 + bits) as u16,
        ).faults,
        OperationStatus::of_word(bits as u16).faults == Faults::of_bits(bits),
{
}

} // verus!
