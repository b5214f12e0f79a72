//! Error types of a dual-wire transaction.

use vstd::prelude::*;

verus! {

/// Error type for dual-wire operations.
#[derive(Debug, Clone, Copy, PartialEq, Eq)]
pub enum Error {
    /// Read error from the underlying serial interface.
    Read,
    /// Write error from the underlying serial interface.
    Write,
    /// Bad response from the device.
    Response(ResponseError),
}

impl From<ResponseError> for Error {
    fn from(e: ResponseError) -> (r: Self) {
        Error::Response(e)
    }
}

impl vstd::std_specs::convert::FromSpecImpl<ResponseError> for Error {
    open spec fn obeys_from_spec() -> bool {
        true
    }

    open spec fn from_spec(e: ResponseError) -> Self {
        Error::Response(e)
    }
}

/// Error type for responses from the compressor.
#[derive(Debug, Clone, Copy, PartialEq, Eq)]
pub enum ResponseError {
    /// Bad checksum in a received frame.
    Integrity,
    /// Bad Rx identification in a received frame.
    RxId,
    /// Bad command code in a received frame.
    InvalidResponse,
    /// The compressor rejected the request with a communication-error.
    Communication(CommunicationError),
}

/// Communication-error reported by the compressor.
#[derive(Debug, Clone, Copy, PartialEq, Eq)]
pub enum CommunicationError {
    /// `0xF0` error in byte 4 (data high).
    DataHigh,
    /// `0xF2` checksum error (byte 5).
    Checksum,
    /// `0xF4` bad command code (byte 2).
    Command,
    /// `0xF8` error in byte 3 (data low).
    DataLow,
}

impl CommunicationError {
    /// The communication-error that an error-frame code byte names, if any.
    pub open spec fn of_code(code: u8) -> Option<CommunicationError> {
        if code == 0xF0 {
            Some(CommunicationError::DataHigh)
        } else if code == 0xF2 {
            Some(CommunicationError::Checksum)
        } else if code == 0xF4 {
            Some(CommunicationError::Command)
        } else if code == 0xF8 {
            Some(CommunicationError::DataLow)
        } else {
            None
        }
    }

    /// Map an error-frame code byte, or `None` if it is not a known code.
    pub fn from_code(code: u8) -> (r: Option<Self>)
        ensures
            r == Self::of_code(code),
    {
        match code {
            0xF0 => Some(Self::DataHigh),
            0xF2 => Some(Self::Checksum),
            0xF4 => Some(Self::Command),
            0xF8 => Some(Self::DataLow),
            _ => None,
        }
    }
}

/// The four communication-error codes, and no other byte, name a
/// communication-error, each its own.
pub proof fn lemma_code_table(code: u8)
    ensures
        CommunicationError::of_code(code) is Some <==> (code == 0xF0 || code == 0xF2 || code
            == 0xF4 || code == 0xF8),
        CommunicationError::of_code(0xF0) == Some(CommunicationError::DataHigh),
        CommunicationError::of_code(0xF2) == Some(CommunicationError::Checksum),
        CommunicationError::of_code(0xF4) == Some(CommunicationError::Command),
        CommunicationError::of_code(0xF8) == Some(CommunicationError::DataLow),
{
}

} // verus!
