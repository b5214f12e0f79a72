//! Frame exchange over the two signal lines.
//!
//! A transaction first discards whatever the receiver already holds, then
//! sends the request frame, reads one five-byte answer and judges it. The
//! serial work itself is asynchronous I/O done by the caller; [`Transaction`]
//! holds the decisions between the steps: which step comes next, and how the
//! transaction ends.

use vstd::prelude::*;

use crate::compressor::command::{response_frame, Command, CommandFields};
use crate::compressor::error::CommunicationError;
use crate::compressor::error::Error;
use crate::wire::{RESP_ID, high_byte, le_u16, low_byte, word_of};

verus! {

/// Serial driver: the transmit and receive halves of the interface.
pub struct Driver<TX, RX> {
    tx: TX,
    rx: RX,
}

impl<TX, RX> Driver<TX, RX> {
    /// The transmit and receive halves held by the driver.
    pub closed spec fn halves(&self) -> (TX, RX) {
        (self.tx, self.rx)
    }

    /// Create a driver from separate halves of the serial interface.
    pub fn new(tx: TX, rx: RX) -> (d: Self)
        ensures
            d.halves() == (tx, rx),
    {
        Self { tx, rx }
    }

    /// Give back the serial halves.
    pub fn release(self) -> (halves: (TX, RX))
        ensures
            halves == self.halves(),
    {
        (self.tx, self.rx)
    }

    /// Borrow both serial halves for one exchange.
    pub fn halves_mut(&mut self) -> ((tx, rx): (&mut TX, &mut RX))
        ensures
            *tx == old(self).halves().0,
            *rx == old(self).halves().1,
            final(self).halves() == (*final(tx), *final(rx)),
    {
        (&mut self.tx, &mut self.rx)
    }
}

/// The result a transaction ends with once `resp` came back for the request
/// described by `c`: the data word of an accepted answer, or the reason the
/// answer was refused.
pub open spec fn reply_of(c: CommandFields, resp: Seq<u8>) -> Result<u16, Error> {
    match c.verdict(resp) {
        Ok(_) => Ok(word_of(resp[2], resp[3])),
        Err(e) => Err(Error::Response(e)),
    }
}

/// Judge the answer `resp` to `cmd` and take its data word.
pub fn decode_reply(cmd: &Command, resp: &[u8; 5]) -> (r: Result<u16, Error>)
    ensures
        r == reply_of(cmd@, resp@),
{
    match cmd.validate(resp) {
        Ok(()) => Ok(le_u16([resp[2], resp[3]])),
        Err(e) => Err(Error::from(e)),
    }
}

/// Where a transaction stands.
#[derive(Debug, Clone, Copy, PartialEq, Eq)]
pub enum Stage {
    /// Asking whether the receiver holds bytes from before the request.
    Poll,
    /// Reading and dropping bytes that were ready.
    Discard,
    /// Sending the request frame.
    Send,
    /// Waiting for the five-byte answer.
    Await,
    /// Finished, with this result.
    Done(Result<u16, Error>),
}

/// What the serial interface reported for the step just performed.
#[derive(Debug, Clone, Copy, PartialEq, Eq)]
pub enum Event {
    /// The receiver does (`true`) or does not (`false`) hold bytes ready to read.
    Ready(bool),
    /// Asking the receiver whether bytes are ready failed.
    ReadyFailed,
    /// The ready bytes were read and dropped.
    Discarded,
    /// Reading the bytes to drop failed.
    DiscardFailed,
    /// The request frame was written.
    Sent,
    /// Writing the request frame failed.
    SendFailed,
    /// Five bytes were received.
    Received([u8; 5]),
    /// Receiving the answer failed.
    ReceiveFailed,
}

/// The next thing the caller must do on the serial interface.
#[derive(Debug, Clone, Copy, PartialEq, Eq)]
pub enum Action {
    /// Ask the receiver whether bytes are ready.
    PollReady,
    /// Read whatever is ready and drop it.
    Discard,
    /// Write this request frame.
    Send([u8; 5]),
    /// Read exactly five bytes.
    Receive,
    /// The transaction is over, with this result.
    Finish(Result<u16, Error>),
}

/// The stage a transaction for `c` moves to when `e` arrives in stage `s`.
/// An event that does not answer the stage's pending action changes nothing.
pub open spec fn next_stage(c: CommandFields, s: Stage, e: Event) -> Stage {
    match (s, e) {
        (Stage::Poll, Event::Ready(pending)) => if pending {
            Stage::Discard
        } else {
            Stage::Send
        },
        (Stage::Poll, Event::ReadyFailed) => Stage::Done(Err(Error::Read)),
        (Stage::Discard, Event::Discarded) => Stage::Poll,
        (Stage::Discard, Event::DiscardFailed) => Stage::Done(Err(Error::Read)),
        (Stage::Send, Event::Sent) => Stage::Await,
        (Stage::Send, Event::SendFailed) => Stage::Done(Err(Error::Write)),
        (Stage::Await, Event::Received(resp)) => Stage::Done(reply_of(c, resp@)),
        (Stage::Await, Event::ReceiveFailed) => Stage::Done(Err(Error::Read)),
        _ => s,
    }
}

/// `a` is the action that stage `s` of a transaction for `c` waits on.
pub open spec fn pending_action(c: CommandFields, s: Stage, a: Action) -> bool {
    match s {
        Stage::Poll => a == Action::PollReady,
        Stage::Discard => a == Action::Discard,
        Stage::Send => a matches Action::Send(frame) && frame@ == c.request_frame(),
        Stage::Await => a == Action::Receive,
        Stage::Done(r) => a == Action::Finish(r),
    }
}

/// One request/response exchange, driven by the events the caller reports.
pub struct Transaction {
    cmd: Command,
    stage: Stage,
}

impl Transaction {
    /// The request being carried out.
    pub closed spec fn command(&self) -> CommandFields {
        self.cmd@
    }

    /// The stage the transaction stands in.
    pub closed spec fn stage(&self) -> Stage {
        self.stage
    }

    /// Start a transaction for `cmd`: the first step is to look for stale
    /// bytes in the receiver.
    pub fn begin(cmd: &Command) -> (r: (Transaction, Action))
        ensures
            r.0.command() == cmd@,
            r.0.stage() == Stage::Poll,
            r.1 == Action::PollReady,
    {
        (Transaction { cmd: *cmd, stage: Stage::Poll }, Action::PollReady)
    }

    /// Take in what the last step reported and say what to do next.
    pub fn step(&mut self, e: Event) -> (a: Action)
        ensures
            final(self).command() == old(self).command(),
            final(self).stage() == next_stage(old(self).command(), old(self).stage(), e),
            pending_action(final(self).command(), final(self).stage(), a),
    {
        let next = match (self.stage, e) {
            (Stage::Poll, Event::Ready(pending)) => if pending {
                Stage::Discard
            } else {
                Stage::Send
            },
            (Stage::Poll, Event::ReadyFailed) => Stage::Done(Err(Error::Read)),
            (Stage::Discard, Event::Discarded) => Stage::Poll,
            (Stage::Discard, Event::DiscardFailed) => Stage::Done(Err(Error::Read)),
            (Stage::Send, Event::Sent) => Stage::Await,
            (Stage::Send, Event::SendFailed) => Stage::Done(Err(Error::Write)),
            (Stage::Await, Event::Received(resp)) => Stage::Done(decode_reply(&self.cmd, &resp)),
            (Stage::Await, Event::ReceiveFailed) => Stage::Done(Err(Error::Read)),
            (s, _) => s,
        };
        self.stage = next;
        match next {
            Stage::Poll => Action::PollReady,
            Stage::Discard => Action::Discard,
            Stage::Send => Action::Send(self.cmd.encode()),
            Stage::Await => Action::Receive,
            Stage::Done(r) => Action::Finish(r),
        }
    }
}

/// A transaction ends in success only by accepting an answer to its own
/// request: the success value is that answer's data word.
pub proof fn lemma_success_only_from_accepted_answer(c: CommandFields, s: Stage, e: Event, w: u16)
    requires
        next_stage(c, s, e) == Stage::Done(Ok::<u16, Error>(w)),
    ensures
        s == Stage::Done(Ok::<u16, Error>(w)) || (s == Stage::Await && (e matches Event::Received(
            resp,
        ) && c.verdict(resp@) is Ok && w == word_of(resp[2], resp[3]))),
{
}

/// An accepted answer always ends the transaction in success, with the
/// little-endian word of its two data bytes; stated on the answer's bytes.
pub proof fn lemma_accepted_answer_completes(c: CommandFields, resp: [u8; 5])
    requires
        resp[0] == 0x5A,
        (resp[0] as int + resp[1] as int + resp[2] as int + resp[3] as int + resp[4] as int) % 256
            == 0,
        resp[1] == c.expect,
        !(resp[2] == 0xFF && resp[3] == 0xFF && (resp[1] == 0xF0 || resp[1] == 0xF2 || resp[1]
            == 0xF4 || resp[1] == 0xF8)),
    ensures
        next_stage(c, Stage::Await, Event::Received(resp)) matches Stage::Done(Ok(w)) && w as int
            == resp[2] as int + 256 * resp[3] as int,
{
    crate::compressor::command::lemma_verdict_by_bytes(c, resp@);
}

/// A refused answer ends the transaction with the refusal as its error.
pub proof fn lemma_refused_answer_fails(c: CommandFields, resp: [u8; 5])
    requires
        c.verdict(resp@) is Err,
    ensures
        next_stage(c, Stage::Await, Event::Received(resp)) == Stage::Done(
            Err::<u16, Error>(Error::Response(c.verdict(resp@)->Err_0)),
        ),
{
}

/// The data word an inverter puts in a well-formed answer is the word the
/// transaction returns, unless the answer reads as a communication-error frame.
pub proof fn lemma_answer_word_returned(c: CommandFields, w: u16)
    requires
        !(w == 0xFFFF && CommunicationError::of_code(c.expect) is Some),
    ensures
        reply_of(c, response_frame(c.expect, low_byte(w), high_byte(w))) == Ok::<u16, Error>(w),
{
    let r = response_frame(c.expect, low_byte(w), high_byte(w));
    assert(r[0] == RESP_ID && r[1] == c.expect && r[2] == low_byte(w) && r[3] == high_byte(w));
    assert(low_byte(w) == 0xFF && high_byte(w) == 0xFF ==> w == 0xFFFF);
}

/// How an unfinished transaction can end: with a write error only when writing
/// the request failed, with a read error only when asking for, dropping or
/// receiving bytes failed, and in any other way only on an answer.
pub proof fn lemma_how_transactions_end(c: CommandFields, s: Stage, e: Event, r: Result<u16, Error>)
    requires
        !(s is Done),
        next_stage(c, s, e) == Stage::Done(r),
    ensures
        r == Err::<u16, Error>(Error::Write) ==> s == Stage::Send && e == Event::SendFailed,
        r == Err::<u16, Error>(Error::Read) ==> (s == Stage::Poll && e == Event::ReadyFailed) || (
        s == Stage::Discard && e == Event::DiscardFailed) || (s == Stage::Await && e
            == Event::ReceiveFailed),
        !(r == Err::<u16, Error>(Error::Write)) && !(r == Err::<u16, Error>(Error::Read)) ==> s
            == Stage::Await && e is Received,
{
}

/// The request is sent only once the receiver reported nothing pending, and
/// the answer is awaited only once the request was written.
pub proof fn lemma_send_after_drain(c: CommandFields, s: Stage, e: Event)
    ensures
        next_stage(c, s, e) == Stage::Send ==> s == Stage::Send || (s == Stage::Poll && e
            == Event::Ready(false)),
        next_stage(c, s, e) == Stage::Await ==> s == Stage::Await || (s == Stage::Send && e
            == Event::Sent),
        next_stage(c, s, e) == Stage::Discard ==> s == Stage::Discard || (s == Stage::Poll && e
            == Event::Ready(true)),
{
}

/// A finished transaction stays finished with the same result, whatever is
/// reported afterwards.
pub proof fn lemma_done_is_final(c: CommandFields, r: Result<u16, Error>, e: Event)
    ensures
        next_stage(c, Stage::Done(r), e) == Stage::Done(r),
{
}

/// The transaction never writes anything but the request frame of its command.
pub proof fn lemma_only_request_is_sent(c: CommandFields, s: Stage, a: Action)
    requires
        pending_action(c, s, a),
        a is Send,
    ensures
        a->Send_0@ == c.request_frame(),
{
}

} // verus!
