use esp_miner::receive::{Outgoing, Polled, Receiver, RxDirective, RxEvent, RxStage};
use esp_miner::request::{Extensions, Request, Share};
use esp_miner::session::{Message, Phase, Session, SessionEvent};
use esp_miner::submit::{
    Submitter, TxDirective, TxEvent, TxStage, REARM_PAUSE_MS, SUBMIT_PERIOD_MS,
};

fn fresh_session() -> Session {
    let mut session = Session::new(Extensions::advertised());
    session.handle(SessionEvent::TransportUp);
    session
}

#[test]
fn receiver_starts_by_acquiring() {
    let pump = Receiver::new();
    assert_eq!(pump.stage(), RxStage::Acquiring);
    assert_eq!(pump.directive(), RxDirective::Acquire);
}

#[test]
fn receiver_round_without_message() {
    let mut session = fresh_session();
    let mut pump = Receiver::new();
    assert_eq!(pump.step(&mut session, RxEvent::Acquired), RxDirective::Poll);
    assert_eq!(pump.step(&mut session, RxEvent::Polled(Polled::Idle)), RxDirective::Release);
    assert_eq!(pump.step(&mut session, RxEvent::Released), RxDirective::Acquire);
    assert_eq!(session.phase(), Phase::Connected);
}

#[test]
fn receiver_goes_on_after_a_failed_poll() {
    let mut session = fresh_session();
    let mut pump = Receiver::new();
    for _ in 0..3 {
        assert_eq!(pump.step(&mut session, RxEvent::Acquired), RxDirective::Poll);
        assert_eq!(pump.step(&mut session, RxEvent::Polled(Polled::Failed)), RxDirective::Release);
        assert_eq!(pump.step(&mut session, RxEvent::Released), RxDirective::Acquire);
        assert_eq!(session.phase(), Phase::Connected);
    }
}

#[test]
fn receiver_drives_the_handshake() {
    let mut session = fresh_session();
    let mut pump = Receiver::new();

    pump.step(&mut session, RxEvent::Acquired);
    assert_eq!(
        pump.step(&mut session, RxEvent::Polled(Polled::Message(Message::Configured))),
        RxDirective::Send(Request::connect())
    );
    assert_eq!(pump.stage(), RxStage::Sending(Outgoing::Subscription));
    assert_eq!(session.phase(), Phase::Configured);
    assert_eq!(pump.step(&mut session, RxEvent::Sent(true)), RxDirective::Release);
    assert_eq!(session.phase(), Phase::Connecting);
    assert_eq!(pump.step(&mut session, RxEvent::Released), RxDirective::Acquire);

    pump.step(&mut session, RxEvent::Acquired);
    assert_eq!(
        pump.step(&mut session, RxEvent::Polled(Polled::Message(Message::Connected))),
        RxDirective::Send(Request::authorize())
    );
    assert_eq!(pump.stage(), RxStage::Sending(Outgoing::Authorization));
    assert_eq!(session.phase(), Phase::ConnectedSession);
    assert_eq!(pump.step(&mut session, RxEvent::Sent(true)), RxDirective::Release);
    assert_eq!(session.phase(), Phase::Authorizing);
    assert_eq!(pump.step(&mut session, RxEvent::Released), RxDirective::Acquire);

    pump.step(&mut session, RxEvent::Acquired);
    assert_eq!(
        pump.step(&mut session, RxEvent::Polled(Polled::Message(Message::Authorized))),
        RxDirective::OpenGate
    );
    assert_eq!(session.phase(), Phase::Authorized);
    assert_eq!(pump.step(&mut session, RxEvent::Signalled), RxDirective::Release);
    assert_eq!(pump.step(&mut session, RxEvent::Released), RxDirective::Acquire);
}

#[test]
fn receiver_ends_when_a_request_cannot_be_written() {
    let mut session = fresh_session();
    let mut pump = Receiver::new();
    pump.step(&mut session, RxEvent::Acquired);
    pump.step(&mut session, RxEvent::Polled(Polled::Message(Message::Configured)));
    assert_eq!(pump.step(&mut session, RxEvent::Sent(false)), RxDirective::Release);
    assert_eq!(pump.stage(), RxStage::Closing);
    assert_eq!(session.phase(), Phase::Disconnected);
    assert_eq!(pump.step(&mut session, RxEvent::Released), RxDirective::Halt);
    assert_eq!(pump.stage(), RxStage::Halted);
    // A halted pump stays halted.
    for event in [
        RxEvent::Acquired,
        RxEvent::Polled(Polled::Message(Message::Configured)),
        RxEvent::Sent(true),
        RxEvent::Signalled,
        RxEvent::Released,
    ] {
        assert_eq!(pump.step(&mut session, event), RxDirective::Halt);
    }
}

#[test]
fn receiver_ignores_events_it_does_not_wait_for() {
    let mut session = fresh_session();
    let mut pump = Receiver::new();
    for event in [
        RxEvent::Polled(Polled::Message(Message::Configured)),
        RxEvent::Sent(true),
        RxEvent::Sent(false),
        RxEvent::Signalled,
        RxEvent::Released,
    ] {
        assert_eq!(pump.step(&mut session, event), RxDirective::Acquire);
        assert_eq!(session.phase(), Phase::Connected);
    }
    pump.step(&mut session, RxEvent::Acquired);
    for event in [RxEvent::Acquired, RxEvent::Sent(true), RxEvent::Signalled, RxEvent::Released] {
        assert_eq!(pump.step(&mut session, event), RxDirective::Poll);
        assert_eq!(session.phase(), Phase::Connected);
    }
}

#[test]
fn receiver_releases_after_notices() {
    let mut session = fresh_session();
    let mut pump = Receiver::new();
    for message in [
        Message::Share { accepted: 7, rejected: 2 },
        Message::VersionMask(0x1fffe000),
        Message::Difficulty(256.0f64.to_bits()),
        Message::CleanJobs,
        Message::Authorized,
    ] {
        pump.step(&mut session, RxEvent::Acquired);
        assert_eq!(
            pump.step(&mut session, RxEvent::Polled(Polled::Message(message))),
            RxDirective::Release
        );
        pump.step(&mut session, RxEvent::Released);
        assert_eq!(session.phase(), Phase::Connected);
    }
}

#[test]
fn submitter_waits_for_the_gate() {
    let mut pump = Submitter::new();
    assert_eq!(pump.stage(), TxStage::AwaitingGate);
    assert_eq!(pump.directive(), TxDirective::AwaitGate);
    for event in [
        TxEvent::Tick,
        TxEvent::Acquired,
        TxEvent::Submitted(true),
        TxEvent::Released,
        TxEvent::PauseElapsed,
    ] {
        assert_eq!(pump.step(event), TxDirective::AwaitGate);
    }
}

#[test]
fn submitter_rearms_after_a_reset() {
    let mut pump = Submitter::new();
    assert_eq!(pump.step(TxEvent::Gate(false)), TxDirective::Rearm { pause_ms: 500 });
    assert_eq!(REARM_PAUSE_MS, 500);
    assert_eq!(pump.stage(), TxStage::Rearming);
    // Nothing but the end of the pause moves it on.
    assert_eq!(pump.step(TxEvent::Gate(true)), TxDirective::Rearm { pause_ms: 500 });
    assert_eq!(pump.step(TxEvent::Tick), TxDirective::Rearm { pause_ms: 500 });
    assert_eq!(pump.step(TxEvent::PauseElapsed), TxDirective::AwaitGate);
    assert_eq!(pump.step(TxEvent::Gate(false)), TxDirective::Rearm { pause_ms: 500 });
    assert_eq!(pump.step(TxEvent::PauseElapsed), TxDirective::AwaitGate);
    assert_eq!(pump.step(TxEvent::Gate(true)), TxDirective::AwaitTick { period_ms: 2000 });
}

#[test]
fn submitter_submits_one_share_per_tick() {
    let mut pump = Submitter::new();
    assert_eq!(pump.step(TxEvent::Gate(true)), TxDirective::AwaitTick { period_ms: 2000 });
    assert_eq!(SUBMIT_PERIOD_MS, 2000);
    for _ in 0..3 {
        assert_eq!(pump.step(TxEvent::Tick), TxDirective::Acquire);
        assert_eq!(pump.step(TxEvent::Acquired), TxDirective::Submit(Share::stand_in()));
        assert_eq!(pump.step(TxEvent::Submitted(true)), TxDirective::Release);
        assert_eq!(pump.step(TxEvent::Released), TxDirective::AwaitTick { period_ms: 2000 });
    }
}

#[test]
fn submitted_share_is_the_stand_in() {
    let mut pump = Submitter::new();
    pump.step(TxEvent::Gate(true));
    pump.step(TxEvent::Tick);
    match pump.step(TxEvent::Acquired) {
        TxDirective::Submit(share) => {
            assert_eq!(share.job_id.as_str(), "01");
            assert_eq!(share.extranonce2.as_slice(), &[0, 0, 0, 1]);
            assert_eq!(share.ntime, 1722789905);
            assert_eq!(share.nonce, 0);
            assert_eq!(share.version_bits, None);
        }
        other => panic!("unexpected directive {:?}", other),
    }
}

#[test]
fn submitter_ends_when_a_share_cannot_be_written() {
    let mut pump = Submitter::new();
    pump.step(TxEvent::Gate(true));
    pump.step(TxEvent::Tick);
    pump.step(TxEvent::Acquired);
    assert_eq!(pump.step(TxEvent::Submitted(false)), TxDirective::Release);
    assert_eq!(pump.stage(), TxStage::Closing);
    assert_eq!(pump.step(TxEvent::Released), TxDirective::Halt);
    for event in [TxEvent::Gate(true), TxEvent::Tick, TxEvent::Acquired, TxEvent::Released] {
        assert_eq!(pump.step(event), TxDirective::Halt);
    }
}

#[test]
fn submitter_never_submits_without_a_true_gate() {
    let alphabet = [
        TxEvent::Gate(false),
        TxEvent::PauseElapsed,
        TxEvent::Tick,
        TxEvent::Acquired,
        TxEvent::Submitted(true),
        TxEvent::Submitted(false),
        TxEvent::Released,
    ];
    // Every sequence of five events in which the latch never returns true.
    let mut code = 0usize;
    while code < 7 * 7 * 7 * 7 * 7 {
        let mut pump = Submitter::new();
        let mut rest = code;
        for _ in 0..5 {
            let directive = pump.step(alphabet[rest % 7]);
            rest /= 7;
            assert!(!matches!(directive, TxDirective::Submit(_)));
            assert!(!matches!(directive, TxDirective::Acquire));
        }
        code += 1;
    }
}
