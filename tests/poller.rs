use discord_mpv_rpc::poller::{Action, Event, LinkState, Poller};

#[test]
fn reconnect_budget_is_exact() {
    let mut p = Poller::new(3);
    assert_eq!(p.step(Event::Connected), Action::Poll { after_ms: 0 });
    assert_eq!(p.step(Event::PollFailed), Action::Connect { after_ms: 1000 });
    assert_eq!(p.state, LinkState::Reconnecting(1));
    assert_eq!(p.step(Event::ConnectFailed), Action::Connect { after_ms: 1000 });
    assert_eq!(p.step(Event::ConnectFailed), Action::Connect { after_ms: 1000 });
    assert_eq!(p.state, LinkState::Reconnecting(3));
    assert_eq!(p.step(Event::ConnectFailed), Action::Stop);
    assert!(p.is_failed());
    assert_eq!(p.step(Event::Connected), Action::Stop);
    assert_eq!(p.step(Event::ConnectFailed), Action::Stop);
    assert_eq!(p.state, LinkState::Failed);
}

#[test]
fn initial_connect_failure_is_fatal() {
    let mut p = Poller::new(3);
    assert_eq!(p.step(Event::ConnectFailed), Action::Stop);
    assert!(p.is_failed());
}

#[test]
fn recovery_needs_a_good_poll() {
    let mut p = Poller::new(3);
    p.step(Event::Connected);
    p.step(Event::PollFailed);
    assert_eq!(p.step(Event::Connected), Action::Poll { after_ms: 0 });
    assert_eq!(p.state, LinkState::Confirming(1));
    assert_eq!(p.step(Event::PollFailed), Action::Connect { after_ms: 1000 });
    assert_eq!(p.state, LinkState::Reconnecting(2));
    p.step(Event::Connected);
    assert_eq!(
        p.step(Event::Polled { paused: true, now_ms: 10 }),
        Action::Poll { after_ms: 2000 }
    );
    assert_eq!(p.state, LinkState::Idle);
    p.step(Event::PollFailed);
    assert_eq!(p.state, LinkState::Reconnecting(1));
}

#[test]
fn active_cadence() {
    let mut p = Poller::new(3);
    p.step(Event::Connected);
    assert_eq!(p.step(Event::Polled { paused: false, now_ms: 10_000 }), Action::Poll { after_ms: 0 });
    assert_eq!(p.last_active_ms, 10_000);
    assert_eq!(p.step(Event::Polled { paused: false, now_ms: 10_120 }), Action::Poll { after_ms: 380 });
    assert_eq!(p.last_active_ms, 10_500);
    assert_eq!(p.step(Event::Polled { paused: false, now_ms: 11_200 }), Action::Poll { after_ms: 0 });
    assert_eq!(p.state, LinkState::Active);
}

#[test]
fn zero_budget_fails_at_once() {
    let mut p = Poller::new(0);
    p.step(Event::Connected);
    assert_eq!(p.step(Event::PollFailed), Action::Stop);
    assert!(p.is_failed());
}
