//! The five-byte frame: `[id][cmd][lo][hi][ck]`, little-endian payload.

use vstd::prelude::*;

use crate::compressor::error::{CommunicationError, ResponseError};
use crate::wire::{checksum, checksum_of, high_byte, intact, low_byte, REQ_ID, RESP_ID};

verus! {

/// A request and the response command byte it expects back.
#[derive(Debug, Clone, Copy, PartialEq, Eq)]
pub struct Command {
    /// Request command.
    cmd: u8,
    /// Request data.
    data: u16,
    /// Expected command byte in the response.
    expect: u8,
}

/// The three values a [`Command`] is made of.
pub struct CommandFields {
    /// Request command byte.
    pub cmd: u8,
    /// Request data word.
    pub data: u16,
    /// Command byte expected in the response.
    pub expect: u8,
}

impl View for Command {
    type V = CommandFields;

    closed spec fn view(&self) -> CommandFields {
        CommandFields { cmd: self.cmd, data: self.data, expect: self.expect }
    }
}

impl CommandFields {
    /// The request frame of this command: identification, command byte, data
    /// word little-endian, and the checksum that makes the frame sum to zero.
    pub open spec fn request_frame(self) -> Seq<u8> {
        let lo = low_byte(self.data);
        let hi = high_byte(self.data);
        seq![REQ_ID, self.cmd, lo, hi, checksum_of(REQ_ID, self.cmd, lo, hi)]
    }

    /// How a received frame is judged as the answer to this command. The
    /// checks come in order: identification, checksum, communication-error
    /// frame (data `FF FF` and a known code in the command byte), and last the
    /// expected command byte.
    pub open spec fn verdict(self, resp: Seq<u8>) -> Result<(), ResponseError> {
        if resp[0] != RESP_ID {
            Err(ResponseError::RxId)
        } else if !intact(resp) {
            Err(ResponseError::Integrity)
        } else if resp[2] == 0xFF && resp[3] == 0xFF && CommunicationError::of_code(resp[1]) is Some {
            Err(ResponseError::Communication(CommunicationError::of_code(resp[1])->0))
        } else if resp[1] != self.expect {
            Err(ResponseError::InvalidResponse)
        } else {
            Ok(())
        }
    }
}

impl Command {
    /// Create a new command.
    pub fn new(cmd: u8, data: u16, expect: u8) -> (c: Self)
        ensures
            c@ == (CommandFields { cmd, data, expect }),
    {
        Self { cmd, data, expect }
    }

    /// Encode a request frame with a computed checksum.
    pub fn encode(&self) -> (frame: [u8; 5])
        ensures
            frame@ == self@.request_frame(),
            intact(frame@),
    {
        let cmd = self.cmd;
        let lo = (self.data & 0xFF) as u8;
        let hi = (self.data >> 8) as u8;
        let d = self.data;
        assert((d & 0xFF) as u8 == d % 256 && (d >> 8) as u8 == d / 256) by (bit_vector);
        let ck = checksum(REQ_ID, cmd, lo, hi);
        let frame = [REQ_ID, cmd, lo, hi, ck];
        assert(frame@ =~= self@.request_frame());
        frame
    }

    /// Validate a received frame against the request that produced it.
    pub fn validate(&self, resp: &[u8; 5]) -> (r: Result<(), ResponseError>)
        ensures
            r == self@.verdict(resp@),
    {
        if resp[0] != RESP_ID {
            return Err(ResponseError::RxId);
        }
        let sum = resp[0].wrapping_add(resp[1]).wrapping_add(resp[2]).wrapping_add(
            resp[3],
        ).wrapping_add(resp[4]);
        assert(sum == (resp[0] + resp[1] + resp[2] + resp[3] + resp[4]) % 256);
        if sum != 0 {
            return Err(ResponseError::Integrity);
        }
        if resp[2] == 0xFF && resp[3] == 0xFF {
            if let Some(code) = CommunicationError::from_code(resp[1]) {
                return Err(ResponseError::Communication(code));
            }
        }
        if resp[1] != self.expect {
            return Err(ResponseError::InvalidResponse);
        }
        Ok(())
    }
}

/// The frame an inverter sends to answer with code `code` and data `lo`, `hi`.
pub open spec fn response_frame(code: u8, lo: u8, hi: u8) -> Seq<u8> {
    seq![RESP_ID, code, lo, hi, checksum_of(RESP_ID, code, lo, hi)]
}

/// An accepted answer is intact, comes from the inverter and carries the
/// command byte the request expects.
pub proof fn lemma_accepted_answer_is_well_formed(c: CommandFields, resp: Seq<u8>)
    requires
        resp.len() == 5,
        c.verdict(resp) is Ok,
    ensures
        intact(resp),
        resp[0] == RESP_ID,
        resp[1] == c.expect,
{
}

/// Every well-formed answer that carries the expected command byte is
/// accepted, unless it reads as a communication-error frame.
pub proof fn lemma_expected_answer_accepted(c: CommandFields, lo: u8, hi: u8)
    requires
        !(lo == 0xFF && hi == 0xFF && CommunicationError::of_code(c.expect) is Some),
    ensures
        c.verdict(response_frame(c.expect, lo, hi)) == Ok::<(), ResponseError>(()),
{
    let r = response_frame(c.expect, lo, hi);
    assert(r[0] == RESP_ID && r[1] == c.expect && r[2] == lo && r[3] == hi);
}

/// A communication-error frame (data `FF FF`, a known code in the command
/// byte) is reported as that communication-error, whatever was requested.
pub proof fn lemma_error_frame_reported(c: CommandFields, code: u8)
    requires
        CommunicationError::of_code(code) is Some,
    ensures
        c.verdict(response_frame(code, 0xFF, 0xFF)) == Err::<(), ResponseError>(
            ResponseError::Communication(CommunicationError::of_code(code)->0),
        ),
{
    let r = response_frame(code, 0xFF, 0xFF);
    assert(r[0] == RESP_ID && r[1] == code && r[2] == 0xFF && r[3] == 0xFF);
}

/// A request frame read back on the line (an echo) is never taken for an
/// answer: its identification byte is refused.
pub proof fn lemma_echoed_request_rejected(c: CommandFields, d: CommandFields)
    ensures
        d.verdict(c.request_frame()) == Err::<(), ResponseError>(ResponseError::RxId),
{
}

/// How an answer is judged, stated on its bytes alone: a wrong identification
/// is refused first, then a sum that is not a multiple of 256, then a
/// communication-error frame (`FF FF` data with code `F0`, `F2`, `F4` or `F8`),
/// then a command byte other than the expected one; everything else is
/// accepted.
pub proof fn lemma_verdict_by_bytes(c: CommandFields, resp: Seq<u8>)
    requires
        resp.len() == 5,
    ensures
        resp[0] != 0x5A ==> c.verdict(resp) == Err::<(), ResponseError>(ResponseError::RxId),
        resp[0] == 0x5A && (resp[0] as int + resp[1] as int + resp[2] as int + resp[3] as int
            + resp[4] as int) % 256 != 0 ==> c.verdict(resp) == Err::<(), ResponseError>(
            ResponseError::Integrity,
        ),
        c.verdict(resp) is Ok <==> (resp[0] == 0x5A && (resp[0] as int + resp[1] as int
            + resp[2] as int + resp[3] as int + resp[4] as int) % 256 == 0 && resp[1] == c.expect
            && !(resp[2] == 0xFF && resp[3] == 0xFF && (resp[1] == 0xF0 || resp[1] == 0xF2
            || resp[1] == 0xF4 || resp[1] == 0xF8))),
        resp[0] == 0x5A && (resp[0] as int + resp[1] as int + resp[2] as int + resp[3] as int
            + resp[4] as int) % 256 == 0 && resp[2] == 0xFF && resp[3] == 0xFF ==> {
            &&& resp[1] == 0xF0 ==> c.verdict(resp) == Err::<(), ResponseError>(
                ResponseError::Communication(CommunicationError::DataHigh),
            )
            &&& resp[1] == 0xF2 ==> c.verdict(resp) == Err::<(), ResponseError>(
                ResponseError::Communication(CommunicationError::Checksum),
            )
            &&& resp[1] == 0xF4 ==> c.verdict(resp) == Err::<(), ResponseError>(
                ResponseError::Communication(CommunicationError::Command),
            )
            &&& resp[1] == 0xF8 ==> c.verdict(resp) == Err::<(), ResponseError>(
                ResponseError::Communication(CommunicationError::DataLow),
            )
        },
        resp[0] == 0x5A && (resp[0] as int + resp[1] as int + resp[2] as int + resp[3] as int
            + resp[4] as int) % 256 == 0 && resp[1] != c.expect && !(resp[2] == 0xFF && resp[3]
            == 0xFF && (resp[1] == 0xF0 || resp[1] == 0xF2 || resp[1] == 0xF4 || resp[1] == 0xF8))
            ==> c.verdict(resp) == Err::<(), ResponseError>(ResponseError::InvalidResponse),
{
}

/// An accepted answer is intact, comes from the inverter and carries the
/// command byte the request expects; in particular no answer with a single
/// corrupted bit is ever accepted.
pub proof fn lemma_accepted_answer_is_intact(c: CommandFields, resp: Seq<u8>)
    requires
        resp.len() == 5,
        c.verdict(resp) is Ok,
    ensures
        (resp[0] as int + resp[1] as int + resp[2] as int + resp[3] as int + resp[4] as int) % 256
            == 0,
        resp[0] == 0x5A,
        resp[1] == c.expect,
{
}

/// The request frame of a command, byte by byte: request identification,
/// the command byte, the data word little-endian, and a last byte that
/// brings the sum of all five to a multiple of 256.
pub proof fn lemma_request_frame_bytes(c: CommandFields)
    ensures
        c.request_frame().len() == 5,
        c.request_frame()[0] == 0xA5,
        c.request_frame()[1] == c.cmd,
        c.request_frame()[2] as int + 256 * c.request_frame()[3] as int == c.data as int,
        (c.request_frame()[0] as int + c.request_frame()[1] as int + c.request_frame()[2] as int
            + c.request_frame()[3] as int + c.request_frame()[4] as int) % 256 == 0,
{
}

/// Every encoded request frame is intact.
pub proof fn lemma_request_frame_intact(c: CommandFields)
    ensures
        intact(c.request_frame()),
{
}

} // verus!
