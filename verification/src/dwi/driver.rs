//! DWI driver state and the judgement of one request/response exchange.
//!
//! An exchange writes the request frame and reads the five-byte answer at the
//! same time, and gives up when the response timeout passes first. That
//! asynchronous work belongs to the caller; [`finish_exchange`] decides what
//! the exchange yields.

use vstd::prelude::*;

use crate::dwi::error::Error;
use crate::dwi::frame::Command;

verus! {

/// Configuration for the driver
#[derive(Debug, Clone, Copy, PartialEq, Eq)]
pub struct Config {
    /// Timeout for a complete transaction in milliseconds.
    ///
    /// At 600 baud a frame takes ~83 ms each way, the default is **500 ms**.
    pub response_timeout_ms: u16,
}

impl Default for Config {
    fn default() -> (c: Self)
        ensures
            c.response_timeout_ms == 500,
    {
        Self { response_timeout_ms: 500 }
    }
}

/// Dual Wire Interface (DWI) driver
pub struct Driver<TX, RX, D> {
    tx: TX,
    rx: RX,
    delay: D,
    cfg: Config,
}

impl<TX, RX, D> Driver<TX, RX, D> {
    /// The serial halves, the delay provider and the configuration held.
    pub closed spec fn parts(&self) -> (TX, RX, D, Config) {
        (self.tx, self.rx, self.delay, self.cfg)
    }

    /// Create a driver from separate transmit and receive halves of the serial interface.
    pub fn new(tx: TX, rx: RX, delay: D, cfg: Config) -> (d: Self)
        ensures
            d.parts() == (tx, rx, delay, cfg),
    {
        Self { tx, rx, delay, cfg }
    }

    /// The configuration the driver was made with.
    pub fn config(&self) -> (c: &Config)
        ensures
            *c == self.parts().3,
    {
        &self.cfg
    }

    /// Borrow the serial halves and the delay provider for one exchange.
    pub fn io_mut(&mut self) -> ((tx, rx, delay): (&mut TX, &mut RX, &mut D))
        ensures
            *tx == old(self).parts().0,
            *rx == old(self).parts().1,
            *delay == old(self).parts().2,
            final(self).parts() == (*final(tx), *final(rx), *final(delay), old(self).parts().3),
    {
        (&mut self.tx, &mut self.rx, &mut self.delay)
    }
}

/// How the simultaneous write of a request and read of its answer ended.
#[derive(Debug, Clone, Copy, PartialEq, Eq)]
pub enum Exchange {
    /// Both finished before the timeout: whether each succeeded, and the
    /// five bytes read.
    Completed { read_ok: bool, write_ok: bool, response: [u8; 5] },
    /// The response timeout passed first.
    TimedOut,
}

/// What an exchange for `cmd` yields: a timeout, a read failure, a write
/// failure (in that order), else the judgement of the answer, whose data bytes
/// come back on success.
pub fn finish_exchange(cmd: &Command, ex: &Exchange) -> (r: Result<[u8; 2], Error>)
    ensures
        match *ex {
            Exchange::TimedOut => r == Err::<[u8; 2], Error>(Error::Timeout),
            Exchange::Completed { read_ok, write_ok, response } => if !read_ok {
                r == Err::<[u8; 2], Error>(Error::Read)
            } else if !write_ok {
                r == Err::<[u8; 2], Error>(Error::Write)
            } else {
                match cmd.verdict(response@) {
                    Ok(_) => r matches Ok(data) && data[0] == response[2] && data[1]
                        == response[3],
                    Err(e) => r == Err::<[u8; 2], Error>(Error::Response(e)),
                }
            },
        },
{
    match *ex {
        Exchange::TimedOut => Err(Error::Timeout),
        Exchange::Completed { read_ok, write_ok, response } => {
            if !read_ok {
                return Err(Error::Read);
            }
            if !write_ok {
                return Err(Error::Write);
            }
            match cmd.validate_response(&response) {
                Ok(()) => Ok([response[2], response[3]]),
                Err(e) => Err(Error::Response(e)),
            }
        },
    }
}

} // verus!
