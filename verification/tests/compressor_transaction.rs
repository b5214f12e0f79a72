use dual_wire::compressor::{
    decode_reply, Action, Command, Driver, Error, Event, ResponseError, Transaction,
};

#[test]
fn transaction_flushes_sends_and_returns_the_data_word() {
    let cmd = Command::new(0x3C, 0x3980, 0x80);
    let (mut t, a) = Transaction::begin(&cmd);
    assert_eq!(a, Action::PollReady);
    assert_eq!(t.step(Event::Ready(true)), Action::Discard);
    assert_eq!(t.step(Event::Discarded), Action::PollReady);
    assert_eq!(t.step(Event::Ready(false)), Action::Send([0xA5, 0x3C, 0x80, 0x39, 0x66]));
    assert_eq!(t.step(Event::Sent), Action::Receive);
    // 0x0BB8 = 3000 RPM.
    let resp = [0x5A, 0x80, 0xB8, 0x0B, 0x63];
    assert_eq!(t.step(Event::Received(resp)), Action::Finish(Ok(3000)));
    // Once finished, it stays finished.
    assert_eq!(t.step(Event::Sent), Action::Finish(Ok(3000)));
}

#[test]
fn transaction_maps_serial_failures() {
    let cmd = Command::new(0x3C, 0x3983, 0x83);
    let (mut t, _) = Transaction::begin(&cmd);
    assert_eq!(t.step(Event::ReadyFailed), Action::Finish(Err(Error::Read)));

    let (mut t, _) = Transaction::begin(&cmd);
    t.step(Event::Ready(true));
    assert_eq!(t.step(Event::DiscardFailed), Action::Finish(Err(Error::Read)));

    let (mut t, _) = Transaction::begin(&cmd);
    t.step(Event::Ready(false));
    assert_eq!(t.step(Event::SendFailed), Action::Finish(Err(Error::Write)));

    let (mut t, _) = Transaction::begin(&cmd);
    t.step(Event::Ready(false));
    t.step(Event::Sent);
    assert_eq!(t.step(Event::ReceiveFailed), Action::Finish(Err(Error::Read)));
}

#[test]
fn transaction_reports_refused_answers() {
    let cmd = Command::new(0x3C, 0x3983, 0x83);
    let (mut t, _) = Transaction::begin(&cmd);
    t.step(Event::Ready(false));
    t.step(Event::Sent);
    let resp = [0x5A, 0x83, 0x00, 0x00, 0x00];
    assert_eq!(
        t.step(Event::Received(resp)),
        Action::Finish(Err(Error::Response(ResponseError::Integrity)))
    );
}

#[test]
fn out_of_turn_event_repeats_the_pending_action() {
    let cmd = Command::new(0x3C, 0x3983, 0x83);
    let (mut t, _) = Transaction::begin(&cmd);
    assert_eq!(t.step(Event::Sent), Action::PollReady);
    t.step(Event::Ready(false));
    assert_eq!(t.step(Event::Discarded), Action::Send(cmd.encode()));
}

#[test]
fn decode_reply_reads_the_data_word() {
    let cmd = Command::new(0xC3, 3000, 0x83);
    assert_eq!(decode_reply(&cmd, &[0x5A, 0x83, 0x00, 0xFF, 0x24]), Ok(0xFF00));
    assert_eq!(
        decode_reply(&cmd, &[0x5A, 0x84, 0x00, 0x00, 0x22]),
        Err(Error::Response(ResponseError::InvalidResponse))
    );
}

#[test]
fn response_error_converts_into_error() {
    assert_eq!(Error::from(ResponseError::RxId), Error::Response(ResponseError::RxId));
}

#[test]
fn driver_gives_back_its_halves() {
    let mut d = Driver::new(7u8, "rx");
    {
        let (tx, _rx) = d.halves_mut();
        *tx = 9;
    }
    assert_eq!(d.release(), (9u8, "rx"));
}
