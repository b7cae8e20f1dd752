use visual_check::poll::{PollAction, PollEvent, PollPhase, Poller, DEADLINE_MS, RETRY_MS};

/// Runs a poll against a clock that only pauses move, and a listener that
/// appears at `listening_from` milliseconds, if ever. Gives the result, the
/// time at the end and the number of probes.
fn simulate(deadline_ms: u64, listening_from: Option<u64>) -> (bool, u64, u32) {
    let mut poller = Poller::new(deadline_ms);
    let mut now: u64 = 0;
    let mut probes: u32 = 0;
    let mut action = poller.action();
    loop {
        let event = match action {
            PollAction::ReadClock => PollEvent::Clock { elapsed_ms: now },
            PollAction::Probe => {
                probes += 1;
                match listening_from {
                    Some(t) if now >= t => PollEvent::Connected,
                    _ => PollEvent::Refused,
                }
            }
            PollAction::Sleep { millis } => {
                now += millis;
                PollEvent::Slept
            }
            PollAction::Stop { ready } => return (ready, now, probes),
        };
        action = poller.step(event);
    }
}

#[test]
fn constants_are_thirty_seconds_and_half_a_second() {
    assert_eq!(DEADLINE_MS, 30_000);
    assert_eq!(RETRY_MS, 500);
    assert_eq!(Poller::standard(), Poller::new(30_000));
}

#[test]
fn nothing_listening_gives_up_at_the_deadline() {
    let (ready, elapsed, probes) = simulate(DEADLINE_MS, None);
    assert!(!ready);
    assert_eq!(elapsed, 30_000);
    assert_eq!(probes, 60);
}

#[test]
fn listener_after_one_second_is_found_before_the_deadline() {
    let (ready, elapsed, probes) = simulate(DEADLINE_MS, Some(1_000));
    assert!(ready);
    assert_eq!(elapsed, 1_000);
    assert_eq!(probes, 3);
}

#[test]
fn listener_from_the_start_is_found_by_the_first_probe() {
    assert_eq!(simulate(DEADLINE_MS, Some(0)), (true, 0, 1));
}

#[test]
fn zero_deadline_never_probes() {
    assert_eq!(simulate(0, Some(0)), (false, 0, 0));
}

#[test]
fn poller_walks_clock_probe_sleep() {
    let mut p = Poller::new(1_000);
    assert_eq!(p.action(), PollAction::ReadClock);
    assert_eq!(p.result(), None);
    assert_eq!(p.step(PollEvent::Clock { elapsed_ms: 999 }), PollAction::Probe);
    assert_eq!(p.step(PollEvent::Refused), PollAction::Sleep { millis: 500 });
    assert_eq!(p.step(PollEvent::Slept), PollAction::ReadClock);
    assert_eq!(p.step(PollEvent::Clock { elapsed_ms: 1_000 }), PollAction::Stop { ready: false });
    assert_eq!(p.result(), Some(false));
    assert_eq!(p.phase, PollPhase::Done { ready: false });
}

#[test]
fn connected_probe_stops_at_once() {
    let mut p = Poller::new(1_000);
    p.step(PollEvent::Clock { elapsed_ms: 0 });
    assert_eq!(p.step(PollEvent::Connected), PollAction::Stop { ready: true });
    assert_eq!(p.result(), Some(true));
    // Over is over.
    assert_eq!(p.step(PollEvent::Refused), PollAction::Stop { ready: true });
    assert_eq!(p.step(PollEvent::Clock { elapsed_ms: 5_000 }), PollAction::Stop { ready: true });
}

#[test]
fn events_out_of_turn_change_nothing() {
    let mut p = Poller::new(1_000);
    assert_eq!(p.step(PollEvent::Connected), PollAction::ReadClock);
    assert_eq!(p.step(PollEvent::Slept), PollAction::ReadClock);
    assert_eq!(p.step(PollEvent::Clock { elapsed_ms: 1 }), PollAction::Probe);
    assert_eq!(p.step(PollEvent::Clock { elapsed_ms: 2_000 }), PollAction::Probe);
    assert_eq!(p.step(PollEvent::Slept), PollAction::Probe);
    assert_eq!(p.step(PollEvent::Refused), PollAction::Sleep { millis: 500 });
    assert_eq!(p.step(PollEvent::Refused), PollAction::Sleep { millis: 500 });
    assert_eq!(p.deadline_ms, 1_000);
}
