use esp_miner::link::{LinkDirective, LinkEvent, LinkStage, LinkState, LinkSupervisor, BACKOFF_MS};
use esp_miner::reconnect::{
    Directive, Endpoint, Event, Stage, Supervisor, IDLE_TICK_MS, POOL_PORT, RECONNECT_DELAY_MS,
    STARTUP_POLL_MS,
};
use esp_miner::request::Extensions;

#[test]
fn link_supervisor_starts_by_looking_at_the_link() {
    let supervisor = LinkSupervisor::new();
    assert_eq!(supervisor.stage(), LinkStage::Observing);
    assert_eq!(supervisor.directive(), LinkDirective::QueryLink);
    assert_eq!(supervisor.link_state(), LinkState::Disassociated);
}

#[test]
fn first_association_starts_the_radio() {
    let mut supervisor = LinkSupervisor::new();
    assert_eq!(supervisor.step(LinkEvent::LinkStatus(false)), LinkDirective::QueryRadio);
    assert_eq!(supervisor.step(LinkEvent::RadioStatus(false)), LinkDirective::StartRadio);
    assert_eq!(supervisor.step(LinkEvent::RadioStarted(true)), LinkDirective::Associate);
    assert_eq!(supervisor.link_state(), LinkState::Associating);
    assert_eq!(supervisor.step(LinkEvent::Associated(true)), LinkDirective::QueryLink);
    assert_eq!(supervisor.step(LinkEvent::LinkStatus(true)), LinkDirective::AwaitDisassociation);
    assert_eq!(supervisor.link_state(), LinkState::Associated);
}

#[test]
fn disassociation_is_followed_by_reassociation() {
    let mut supervisor = LinkSupervisor::new();
    supervisor.step(LinkEvent::LinkStatus(true));
    assert_eq!(supervisor.stage(), LinkStage::Holding);

    assert_eq!(
        supervisor.step(LinkEvent::Disassociated),
        LinkDirective::Backoff { pause_ms: 5000 }
    );
    assert_eq!(supervisor.link_state(), LinkState::Disassociated);
    assert_eq!(supervisor.step(LinkEvent::BackoffElapsed), LinkDirective::QueryRadio);
    // The radio is still started: no new configuration.
    assert_eq!(supervisor.step(LinkEvent::RadioStatus(true)), LinkDirective::Associate);
    assert_eq!(supervisor.step(LinkEvent::Associated(true)), LinkDirective::QueryLink);
    assert_eq!(supervisor.step(LinkEvent::LinkStatus(true)), LinkDirective::AwaitDisassociation);
    assert_eq!(supervisor.link_state(), LinkState::Associated);
}

#[test]
fn failed_association_is_retried_after_backoff() {
    let mut supervisor = LinkSupervisor::new();
    supervisor.step(LinkEvent::LinkStatus(false));
    supervisor.step(LinkEvent::RadioStatus(true));
    for _ in 0..3 {
        assert_eq!(
            supervisor.step(LinkEvent::Associated(false)),
            LinkDirective::Backoff { pause_ms: 5000 }
        );
        assert_eq!(BACKOFF_MS, 5000);
        assert_eq!(supervisor.stage(), LinkStage::Retrying);
        assert_eq!(supervisor.step(LinkEvent::BackoffElapsed), LinkDirective::QueryLink);
        assert_eq!(supervisor.step(LinkEvent::LinkStatus(false)), LinkDirective::QueryRadio);
        assert_eq!(supervisor.step(LinkEvent::RadioStatus(true)), LinkDirective::Associate);
    }
}

#[test]
fn failed_radio_start_is_retried_after_backoff() {
    let mut supervisor = LinkSupervisor::new();
    supervisor.step(LinkEvent::LinkStatus(false));
    supervisor.step(LinkEvent::RadioStatus(false));
    assert_eq!(
        supervisor.step(LinkEvent::RadioStarted(false)),
        LinkDirective::Backoff { pause_ms: 5000 }
    );
    assert_eq!(supervisor.step(LinkEvent::BackoffElapsed), LinkDirective::QueryLink);
    assert_eq!(supervisor.step(LinkEvent::LinkStatus(false)), LinkDirective::QueryRadio);
    assert_eq!(supervisor.step(LinkEvent::RadioStatus(false)), LinkDirective::StartRadio);
    assert_eq!(supervisor.step(LinkEvent::RadioStarted(true)), LinkDirective::Associate);
}

#[test]
fn link_supervisor_ignores_events_it_does_not_wait_for() {
    let mut supervisor = LinkSupervisor::new();
    supervisor.step(LinkEvent::LinkStatus(true));
    for event in [
        LinkEvent::LinkStatus(false),
        LinkEvent::BackoffElapsed,
        LinkEvent::RadioStatus(true),
        LinkEvent::RadioStarted(true),
        LinkEvent::Associated(false),
    ] {
        assert_eq!(supervisor.step(event), LinkDirective::AwaitDisassociation);
        assert_eq!(supervisor.stage(), LinkStage::Holding);
    }
}

#[test]
fn association_is_attempted_only_on_a_started_radio() {
    let alphabet = [
        LinkEvent::LinkStatus(true),
        LinkEvent::LinkStatus(false),
        LinkEvent::Disassociated,
        LinkEvent::BackoffElapsed,
        LinkEvent::RadioStatus(false),
        LinkEvent::RadioStarted(false),
        LinkEvent::Associated(true),
        LinkEvent::Associated(false),
    ];
    // Every sequence of six events in which the radio is never reported started.
    let mut code = 0usize;
    while code < 8 * 8 * 8 * 8 * 8 * 8 {
        let mut supervisor = LinkSupervisor::new();
        let mut rest = code;
        for _ in 0..6 {
            let directive = supervisor.step(alphabet[rest % 8]);
            rest /= 8;
            assert_ne!(directive, LinkDirective::Associate);
        }
        code += 1;
    }
}

#[test]
fn startup_polls_until_link_and_address() {
    let mut supervisor = Supervisor::new();
    assert_eq!(supervisor.stage(), Stage::AwaitingLink);
    assert_eq!(supervisor.directive(), Directive::QueryLink);
    assert_eq!(supervisor.step(Event::LinkUp(false)), Directive::Pause { pause_ms: 500 });
    assert_eq!(STARTUP_POLL_MS, 500);
    assert_eq!(supervisor.step(Event::Elapsed), Directive::QueryLink);
    assert_eq!(supervisor.step(Event::LinkUp(false)), Directive::Pause { pause_ms: 500 });
    assert_eq!(supervisor.step(Event::Elapsed), Directive::QueryLink);
    assert_eq!(supervisor.step(Event::LinkUp(true)), Directive::QueryAddress);
    assert_eq!(supervisor.step(Event::AddressHeld(false)), Directive::Pause { pause_ms: 500 });
    assert_eq!(supervisor.step(Event::Elapsed), Directive::QueryAddress);
    assert_eq!(supervisor.step(Event::AddressHeld(true)), Directive::Pause { pause_ms: 1000 });
    assert_eq!(RECONNECT_DELAY_MS, 1000);
    assert_eq!(supervisor.stage(), Stage::Delaying);
}

#[test]
fn pool_endpoint_is_the_fixed_one() {
    let pool = Endpoint::pool();
    assert_eq!((pool.a, pool.b, pool.c, pool.d), (68, 235, 52, 36));
    assert_eq!(pool.port, 21496);
    assert_eq!(POOL_PORT, 21496);
}

#[test]
fn connection_cycle_opens_and_idles() {
    let mut supervisor = Supervisor::new();
    supervisor.step(Event::LinkUp(true));
    supervisor.step(Event::AddressHeld(true));
    assert_eq!(supervisor.step(Event::Elapsed), Directive::Connect(Endpoint::pool()));
    assert_eq!(
        supervisor.step(Event::Connected(true)),
        Directive::Open(Extensions::advertised())
    );
    assert_eq!(supervisor.step(Event::Opened(true)), Directive::Idle { tick_ms: 5000 });
    assert_eq!(IDLE_TICK_MS, 5000);
    for _ in 0..5 {
        assert_eq!(supervisor.step(Event::Elapsed), Directive::Idle { tick_ms: 5000 });
        assert_eq!(supervisor.stage(), Stage::Running);
    }
}

#[test]
fn every_failure_leads_back_to_the_delay() {
    let mut supervisor = Supervisor::new();
    supervisor.step(Event::LinkUp(true));
    supervisor.step(Event::AddressHeld(true));
    supervisor.step(Event::Elapsed);
    assert_eq!(supervisor.step(Event::Connected(false)), Directive::Pause { pause_ms: 1000 });
    supervisor.step(Event::Elapsed);
    supervisor.step(Event::Connected(true));
    assert_eq!(supervisor.step(Event::Opened(false)), Directive::Pause { pause_ms: 1000 });
    supervisor.step(Event::Elapsed);
    supervisor.step(Event::Connected(true));
    supervisor.step(Event::Opened(true));
    assert_eq!(supervisor.step(Event::Ended), Directive::Pause { pause_ms: 1000 });
    assert_eq!(supervisor.step(Event::Elapsed), Directive::Connect(Endpoint::pool()));
}

#[test]
fn supervisor_does_not_connect_before_the_link_is_up() {
    let alphabet = [
        Event::LinkUp(false),
        Event::AddressHeld(true),
        Event::AddressHeld(false),
        Event::Elapsed,
        Event::Connected(true),
        Event::Opened(true),
        Event::Ended,
    ];
    // Every sequence of five events in which the link is never seen up.
    let mut code = 0usize;
    while code < 7 * 7 * 7 * 7 * 7 {
        let mut supervisor = Supervisor::new();
        let mut rest = code;
        for _ in 0..5 {
            let directive = supervisor.step(alphabet[rest % 7]);
            rest /= 7;
            assert!(!matches!(directive, Directive::Connect(_) | Directive::Open(_)));
        }
        code += 1;
    }
}
