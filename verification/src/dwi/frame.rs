//! DWI 5-byte frame codec and the command table.
//!
//! Frame layout:
//! `[0] identification  [1] command  [2] data low  [3] data high  [4] checksum`

use vstd::prelude::*;

use crate::dwi::error::{CommunicationError, ResponseError};
use crate::wire::{checksum, checksum_of, high_byte, intact, low_byte, REQ_ID, RESP_ID};

verus! {

/// A request of the command table, with the command byte its response carries.
#[derive(Debug, Clone, Copy, PartialEq, Eq)]
pub struct Command {
    /// Request command byte
    pub cmd: u8,
    /// Request data-low byte
    pub lo: u8,
    /// Request data-high byte
    pub hi: u8,
    /// Command byte expected in the response.
    pub expect: u8,
}

impl Command {
    /// The request frame of this command, checksum included.
    pub open spec fn request_frame(self) -> Seq<u8> {
        seq![REQ_ID, self.cmd, self.lo, self.hi, checksum_of(REQ_ID, self.cmd, self.lo, self.hi)]
    }

    /// How a received frame is judged as the answer to this command. The
    /// checks come in order: identification, checksum, communication-error
    /// frame (data `FF FF` and a known code in the command byte), and last the
    /// expected command byte.
    pub open spec fn verdict(self, resp: Seq<u8>) -> Result<(), ResponseError> {
        if resp[0] != RESP_ID {
            Err(ResponseError::RxId)
        } else if !intact(resp) {
            Err(ResponseError::Integrity)
        } else if resp[2] == 0xFF && resp[3] == 0xFF && CommunicationError::of_code(resp[1]) is Some {
            Err(ResponseError::Communication(CommunicationError::of_code(resp[1])->0))
        } else if resp[1] != self.expect {
            Err(ResponseError::InvalidResponse)
        } else {
            Ok(())
        }
    }

    /// Encode a request frame with a computed checksum.
    pub fn encode(&self) -> (frame: [u8; 5])
        ensures
            frame@ == self.request_frame(),
            intact(frame@),
    {
        let ck = checksum(REQ_ID, self.cmd, self.lo, self.hi);
        let frame = [REQ_ID, self.cmd, self.lo, self.hi, ck];
        assert(frame@ =~= self.request_frame());
        frame
    }

    /// Validate a received frame against the request that produced it.
    pub fn validate_response(&self, resp: &[u8; 5]) -> (r: Result<(), ResponseError>)
        ensures
            r == self.verdict(resp@),
    {
        if resp[0] != RESP_ID {
            return Err(ResponseError::RxId);
        }
        if !validate(resp) {
            return Err(ResponseError::Integrity);
        }
        if resp[2] == 0xFF && resp[3] == 0xFF {
            if let Some(code) = CommunicationError::from_code(resp[1]) {
                return Err(ResponseError::Communication(code));
            }
        }
        if resp[1] != self.expect {
            return Err(ResponseError::InvalidResponse);
        }
        Ok(())
    }

    /// Command 1 — Set Speed.
    pub fn set_speed(speed: u16) -> (c: Command)
        ensures
            c == (Command { cmd: 0xC3, lo: low_byte(speed), hi: high_byte(speed), expect: 0x83 }),
    {
        assert((speed & 0xFF) as u8 == speed % 256 && (speed >> 8) as u8 == speed / 256)
            by (bit_vector);
        Command { cmd: 0xC3, lo: (speed & 0xFF) as u8, hi: (speed >> 8) as u8, expect: 0x83 }
    }

    /// Command 2 — Read Set Speed (request checksum 0x66).
    pub fn read_set_speed() -> (c: Command)
        ensures
            c == (Command { cmd: 0x3C, lo: 0x80, hi: 0x39, expect: 0x80 }),
            c.request_frame()[4] == 0x66,
    {
        Command { cmd: 0x3C, lo: 0x80, hi: 0x39, expect: 0x80 }
    }

    /// Command 3 — Read Operation Status (request checksum 0x63).
    pub fn read_operation_status() -> (c: Command)
        ensures
            c == (Command { cmd: 0x3C, lo: 0x83, hi: 0x39, expect: 0x83 }),
            c.request_frame()[4] == 0x63,
    {
        Command { cmd: 0x3C, lo: 0x83, hi: 0x39, expect: 0x83 }
    }

    /// Command 4 — Read Actual Speed (request checksum 0x60).
    pub fn read_actual_speed() -> (c: Command)
        ensures
            c == (Command { cmd: 0x3C, lo: 0x86, hi: 0x39, expect: 0x86 }),
            c.request_frame()[4] == 0x60,
    {
        Command { cmd: 0x3C, lo: 0x86, hi: 0x39, expect: 0x86 }
    }

    /// Command 5 — Read Power (request checksum 0x64).
    pub fn read_power() -> (c: Command)
        ensures
            c == (Command { cmd: 0x3C, lo: 0x82, hi: 0x39, expect: 0x82 }),
            c.request_frame()[4] == 0x64,
    {
        Command { cmd: 0x3C, lo: 0x82, hi: 0x39, expect: 0x82 }
    }

    /// Command 6 — Read Temperature (request checksum 0x5E).
    pub fn read_temperature() -> (c: Command)
        ensures
            c == (Command { cmd: 0x3C, lo: 0x88, hi: 0x39, expect: 0x88 }),
            c.request_frame()[4] == 0x5E,
    {
        Command { cmd: 0x3C, lo: 0x88, hi: 0x39, expect: 0x88 }
    }

    /// Command 7 — Read Config Data (request checksum 0x1F; fixed ack
    /// `5A 00 00 00 A6`).
    pub fn read_config_data() -> (c: Command)
        ensures
            c == (Command { cmd: 0x3B, lo: 0x00, hi: 0x01, expect: 0x00 }),
            c.request_frame()[4] == 0x1F,
            c.verdict(seq![0x5A, 0x00, 0x00, 0x00, 0xA6]) is Ok,
    {
        Command { cmd: 0x3B, lo: 0x00, hi: 0x01, expect: 0x00 }
    }

    /// Command 8 — Read Input Voltage (request checksum 0x1E).
    pub fn read_input_voltage() -> (c: Command)
        ensures
            c == (Command { cmd: 0x3B, lo: 0x01, hi: 0x01, expect: 0x01 }),
            c.request_frame()[4] == 0x1E,
    {
        Command { cmd: 0x3B, lo: 0x01, hi: 0x01, expect: 0x01 }
    }

    /// Command 9 — Read Temperature, alternate (request checksum 0x1D).
    pub fn read_temperature_alt() -> (c: Command)
        ensures
            c == (Command { cmd: 0x3B, lo: 0x02, hi: 0x01, expect: 0x02 }),
            c.request_frame()[4] == 0x1D,
    {
        Command { cmd: 0x3B, lo: 0x02, hi: 0x01, expect: 0x02 }
    }

    /// Command 10 — Read Power, alternate (request checksum 0x1C).
    pub fn read_power_alt() -> (c: Command)
        ensures
            c == (Command { cmd: 0x3B, lo: 0x03, hi: 0x01, expect: 0x03 }),
            c.request_frame()[4] == 0x1C,
    {
        Command { cmd: 0x3B, lo: 0x03, hi: 0x01, expect: 0x03 }
    }

    /// Command 11 — Read Status I (request checksum 0x0F; fixed ack
    /// `5A 3E 00 00 68`).
    pub fn read_status_i() -> (c: Command)
        ensures
            c == (Command { cmd: 0x3E, lo: 0x0E, hi: 0x00, expect: 0x3E }),
            c.request_frame()[4] == 0x0F,
            c.verdict(seq![0x5A, 0x3E, 0x00, 0x00, 0x68]) is Ok,
    {
        Command { cmd: 0x3E, lo: 0x0E, hi: 0x00, expect: 0x3E }
    }

    /// Command 12 — Read Status II (request checksum 0x1B; fixed ack
    /// `5A 3F 00 00 67`).
    pub fn read_status_ii() -> (c: Command)
        ensures
            c == (Command { cmd: 0x3F, lo: 0x01, hi: 0x00, expect: 0x3F }),
            c.request_frame()[4] == 0x1B,
            c.verdict(seq![0x5A, 0x3F, 0x00, 0x00, 0x67]) is Ok,
    {
        Command { cmd: 0x3F, lo: 0x01, hi: 0x00, expect: 0x3F }
    }
}

/// Validate a received frame: the sum of all five bytes must be 0 modulo 256.
pub fn validate(frame: &[u8; 5]) -> (ok: bool)
    ensures
        ok == intact(frame@),
{
    let sum: u32 = frame[0] as u32 + frame[1] as u32 + frame[2] as u32 + frame[3] as u32
        + frame[4] as u32;
    assert(sum & 0xFF == sum % 256) by (bit_vector);
    (sum & 0xFF) == 0
}

/// How an answer is judged, stated on its bytes alone: a wrong identification
/// is refused first, then a sum that is not a multiple of 256, then a
/// communication-error frame (`FF FF` data with code `F0`, `F2`, `F4` or `F8`),
/// then a command byte other than the expected one; everything else is
/// accepted.
pub proof fn lemma_verdict_by_bytes(c: Command, resp: Seq<u8>)
    requires
        resp.len() == 5,
    ensures
        resp[0] != 0x5A ==> c.verdict(resp) == Err::<(), ResponseError>(ResponseError::RxId),
        resp[0] == 0x5A && (resp[0] as int + resp[1] as int + resp[2] as int + resp[3] as int
            + resp[4] as int) % 256 != 0 ==> c.verdict(resp) == Err::<(), ResponseError>(
            ResponseError::Integrity,
        ),
        c.verdict(resp) is Ok <==> (resp[0] == 0x5A && (resp[0] as int + resp[1] as int
            + resp[2] as int + resp[3] as int + resp[4] as int) % 256 == 0 && resp[1] == c.expect
            && !(resp[2] == 0xFF && resp[3] == 0xFF && (resp[1] == 0xF0 || resp[1] == 0xF2
            || resp[1] == 0xF4 || resp[1] == 0xF8))),
        resp[0] == 0x5A && (resp[0] as int + resp[1] as int + resp[2] as int + resp[3] as int
            + resp[4] as int) % 256 == 0 && resp[2] == 0xFF && resp[3] == 0xFF ==> {
            &&& resp[1] == 0xF0 ==> c.verdict(resp) == Err::<(), ResponseError>(
                ResponseError::Communication(CommunicationError::DataHigh),
            )
            &&& resp[1] == 0xF2 ==> c.verdict(resp) == Err::<(), ResponseError>(
                ResponseError::Communication(CommunicationError::Checksum),
            )
            &&& resp[1] == 0xF4 ==> c.verdict(resp) == Err::<(), ResponseError>(
                ResponseError::Communication(CommunicationError::Command),
            )
            &&& resp[1] == 0xF8 ==> c.verdict(resp) == Err::<(), ResponseError>(
                ResponseError::Communication(CommunicationError::DataLow),
            )
        },
        resp[0] == 0x5A && (resp[0] as int + resp[1] as int + resp[2] as int + resp[3] as int
            + resp[4] as int) % 256 == 0 && resp[1] != c.expect && !(resp[2] == 0xFF && resp[3]
            == 0xFF && (resp[1] == 0xF0 || resp[1] == 0xF2 || resp[1] == 0xF4 || resp[1] == 0xF8))
            ==> c.verdict(resp) == Err::<(), ResponseError>(ResponseError::InvalidResponse),
{
}

/// An accepted answer is intact, comes from the inverter and carries the
/// command byte the request expects; in particular no answer with a single
/// corrupted bit is ever accepted.
pub proof fn lemma_accepted_answer_is_intact(c: Command, resp: Seq<u8>)
    requires
        resp.len() == 5,
        c.verdict(resp) is Ok,
    ensures
        (resp[0] as int + resp[1] as int + resp[2] as int + resp[3] as int + resp[4] as int) % 256
            == 0,
        resp[0] == 0x5A,
        resp[1] == c.expect,
{
}

/// A communication-error frame (data `FF FF`, a known code in the command
/// byte) is reported as that communication-error, whatever was requested.
pub proof fn lemma_error_frame_reported(c: Command, code: u8)
    requires
        CommunicationError::of_code(code) is Some,
    ensures
        c.verdict(seq![RESP_ID, code, 0xFF, 0xFF, checksum_of(RESP_ID, code, 0xFF, 0xFF)])
            == Err::<(), ResponseError>(
            ResponseError::Communication(CommunicationError::of_code(code)->0),
        ),
{
}

/// Every well-formed answer that carries the expected command byte is
/// accepted, unless it reads as a communication-error frame.
pub proof fn lemma_expected_answer_accepted(c: Command, lo: u8, hi: u8)
    requires
        !(lo == 0xFF && hi == 0xFF && CommunicationError::of_code(c.expect) is Some),
    ensures
        c.verdict(seq![RESP_ID, c.expect, lo, hi, checksum_of(RESP_ID, c.expect, lo, hi)])
            == Ok::<(), ResponseError>(()),
{
}

/// The request frame of a command, byte by byte: request identification,
/// command, data low, data high, and a last byte that brings the sum of all
/// five to a multiple of 256.
pub proof fn lemma_request_frame_bytes(c: Command)
    ensures
        c.request_frame().len() == 5,
        c.request_frame()[0] == 0xA5,
        c.request_frame()[1] == c.cmd,
        c.request_frame()[2] == c.lo,
        c.request_frame()[3] == c.hi,
        (c.request_frame()[0] as int + c.request_frame()[1] as int + c.request_frame()[2] as int
            + c.request_frame()[3] as int + c.request_frame()[4] as int) % 256 == 0,
{
}

/// Set Speed carries the RPM little-endian: the data bytes weigh back to the
/// requested speed.
pub proof fn lemma_set_speed_data(speed: u16, c: Command)
    requires
        c == (Command { cmd: 0xC3, lo: low_byte(speed), hi: high_byte(speed), expect: 0x83 }),
    ensures
        c.lo as int + 256 * c.hi as int == speed as int,
{
}

/// Every request frame of the table passes [`validate`].
pub proof fn lemma_request_frame_valid(c: Command)
    ensures
        intact(c.request_frame()),
{
}

} // verus!
