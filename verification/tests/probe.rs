use minigit_supervisor::probe::{wait_port, ProbeStep, POLL_INTERVAL_MS};

/// Carries out a wait against a port that accepts connections from
/// `opens_at_ms` of sleep on (never, where that is `None`). Gives the last
/// step, the number of attempts made and the number of sleeps.
fn carry_out(port: u16, timeout_secs: u64, opens_at_ms: Option<u128>) -> (ProbeStep, u64, u64) {
    let mut step = wait_port(port, timeout_secs);
    let mut attempts: u64 = 0;
    let mut sleeps: u64 = 0;
    let mut slept_ms: u128 = 0;
    loop {
        step = match step {
            ProbeStep::Connect(attempt) => {
                assert_eq!(attempt.port(), port);
                assert_eq!(attempt.within_ms(), 300);
                assert_eq!(attempt.elapsed_ms(), slept_ms);
                attempts += 1;
                let connected = opens_at_ms.map_or(false, |at| slept_ms >= at);
                attempt.finished(connected)
            }
            ProbeStep::Sleep(pause) => {
                assert_eq!(pause.ms(), 300);
                sleeps += 1;
                slept_ms += u128::from(pause.ms());
                pause.finished()
            }
            done => return (done, attempts, sleeps),
        };
    }
}

#[test]
fn poll_interval_is_300_ms() {
    assert_eq!(POLL_INTERVAL_MS, 300);
}

#[test]
fn port_that_is_open_at_once_is_ready_without_sleep() {
    let (end, attempts, sleeps) = carry_out(8082, 30, Some(0));
    assert_eq!(end, ProbeStep::Done { ready: true, waited_ms: 0 });
    assert_eq!((attempts, sleeps), (1, 0));
}

#[test]
fn port_that_opens_after_two_seconds_is_ready_at_the_next_attempt() {
    let (end, attempts, sleeps) = carry_out(8082, 30, Some(2000));
    assert_eq!(end, ProbeStep::Done { ready: true, waited_ms: 2100 });
    assert_eq!((attempts, sleeps), (8, 7));
}

#[test]
fn port_that_opens_on_an_attempt_is_ready_at_that_attempt() {
    let (end, attempts, _) = carry_out(8082, 30, Some(2100));
    assert_eq!(end, ProbeStep::Done { ready: true, waited_ms: 2100 });
    assert_eq!(attempts, 8);
}

#[test]
fn success_comes_within_one_interval_of_the_port_opening() {
    for opens_at in (0..29_700u128).step_by(37) {
        let (end, _, _) = carry_out(8082, 30, Some(opens_at));
        match end {
            ProbeStep::Done { ready: true, waited_ms } => {
                assert!(waited_ms >= opens_at);
                assert!(waited_ms < opens_at + 300);
            }
            other => panic!("port opened at {} ms but the wait ended in {:?}", opens_at, other),
        }
    }
}

#[test]
fn port_that_never_opens_times_out_after_thirty_seconds() {
    let (end, attempts, sleeps) = carry_out(8082, 30, None);
    assert_eq!(end, ProbeStep::Done { ready: false, waited_ms: 30_000 });
    assert_eq!((attempts, sleeps), (100, 100));
}

#[test]
fn last_attempt_is_made_at_29700_ms() {
    let (end, attempts, _) = carry_out(8082, 30, Some(29_700));
    assert_eq!(end, ProbeStep::Done { ready: true, waited_ms: 29_700 });
    assert_eq!(attempts, 100);
}

#[test]
fn port_that_opens_after_the_last_attempt_is_not_seen() {
    let (end, attempts, _) = carry_out(8082, 30, Some(29_701));
    assert_eq!(end, ProbeStep::Done { ready: false, waited_ms: 30_000 });
    assert_eq!(attempts, 100);
}

#[test]
fn timeout_that_is_no_multiple_of_the_interval_is_overshot_by_less_than_one() {
    let (end, attempts, sleeps) = carry_out(1, 1, None);
    assert_eq!(end, ProbeStep::Done { ready: false, waited_ms: 1200 });
    assert_eq!((attempts, sleeps), (4, 4));
}

#[test]
fn zero_timeout_makes_no_attempt() {
    assert_eq!(wait_port(8082, 0), ProbeStep::Done { ready: false, waited_ms: 0 });
    let (end, attempts, sleeps) = carry_out(8082, 0, Some(0));
    assert_eq!(end, ProbeStep::Done { ready: false, waited_ms: 0 });
    assert_eq!((attempts, sleeps), (0, 0));
}

#[test]
fn first_step_is_an_attempt_on_the_given_port() {
    match wait_port(4321, 30) {
        ProbeStep::Connect(attempt) => {
            assert_eq!(attempt.host(), "127.0.0.1");
            assert_eq!(attempt.port(), 4321);
            assert_eq!(attempt.elapsed_ms(), 0);
        }
        other => panic!("expected an attempt, got {:?}", other),
    }
}

#[test]
fn failed_attempt_is_followed_by_a_sleep_and_a_new_attempt() {
    let ProbeStep::Connect(first) = wait_port(8082, 30) else { panic!("expected an attempt") };
    let ProbeStep::Sleep(pause) = first.finished(false) else { panic!("expected a sleep") };
    let ProbeStep::Connect(second) = pause.finished() else { panic!("expected an attempt") };
    assert_eq!(second.elapsed_ms(), 300);
    assert_eq!(second.finished(true), ProbeStep::Done { ready: true, waited_ms: 300 });
}

#[test]
fn longest_timeout_does_not_overflow() {
    let ProbeStep::Connect(first) = wait_port(8082, u64::MAX) else { panic!("expected an attempt") };
    let ProbeStep::Sleep(pause) = first.finished(false) else { panic!("expected a sleep") };
    let ProbeStep::Connect(second) = pause.finished() else { panic!("expected an attempt") };
    assert_eq!(second.elapsed_ms(), 300);
}
