use helldivers2_rs::gate::{
    GateConfig, GateDecision, GateMode, RequestGate, DEFAULT_CAPACITY, DEFAULT_WINDOW,
};
use helldivers2_rs::headers::RateHeaders;
use reqwest::header::{HeaderMap, HeaderValue};

fn local(capacity: u32, window: u64) -> GateConfig {
    GateConfig { capacity, window, mode: GateMode::LocalEstimate, blocking: false }
}

fn server_fed() -> GateConfig {
    GateConfig { capacity: 5, window: 11, mode: GateMode::ServerFed, blocking: true }
}

fn headers_of(fields: &[(&'static str, &'static str)]) -> HeaderMap {
    let mut headers = HeaderMap::new();
    for (name, value) in fields {
        headers.append(*name, HeaderValue::from_static(value));
    }
    headers
}

#[test]
fn default_configuration() {
    let config = GateConfig::default();
    assert_eq!(config.capacity, 5);
    assert_eq!(config.window, 11);
    assert_eq!(config.capacity, DEFAULT_CAPACITY);
    assert_eq!(config.window, DEFAULT_WINDOW);
    assert_eq!(config.mode, GateMode::ServerFed);
    assert!(config.blocking);
    assert!(config.is_valid());
}

#[test]
fn unusable_configurations_make_no_gate() {
    assert!(!local(0, 11).is_valid());
    assert!(!local(5, 0).is_valid());
    assert!(RequestGate::new(local(0, 11), 0).is_none());
    assert!(RequestGate::new(local(5, 0), 0).is_none());
    assert!(RequestGate::new(local(1, 1), 0).is_some());
}

#[test]
fn new_local_gate_starts_full() {
    let gate = RequestGate::new(local(5, 11), 40).unwrap();
    assert_eq!(gate.config(), local(5, 11));
    assert_eq!(gate.budget().limit(), 5);
    assert_eq!(gate.budget().remaining(), 5);
    assert_eq!(gate.budget().retry_after(), 0);
    assert_eq!(gate.since(), 40);
}

#[test]
fn new_server_fed_gate_starts_empty() {
    let mut gate = RequestGate::new(server_fed(), 40).unwrap();
    assert_eq!(gate.budget().limit(), 5);
    assert_eq!(gate.budget().remaining(), 0);
    assert_eq!(gate.since(), 40);
    assert_eq!(gate.try_acquire(40), GateDecision::WaitFor(1));
    assert_eq!(gate.try_acquire(41), GateDecision::Proceed);
}

#[test]
fn five_proceed_and_the_sixth_waits_for_the_rest_of_the_window() {
    let mut gate = RequestGate::new(local(5, 11), 100).unwrap();
    for _ in 0..5 {
        assert_eq!(gate.try_acquire(100), GateDecision::Proceed);
    }
    assert_eq!(gate.try_acquire(100), GateDecision::WaitFor(11));
    assert_eq!(gate.try_acquire(104), GateDecision::WaitFor(7));
    assert_eq!(gate.try_acquire(110), GateDecision::WaitFor(1));
    assert_eq!(gate.budget().remaining(), 0);
    assert_eq!(gate.since(), 100);
}

#[test]
fn proceeds_within_one_window_never_exceed_capacity() {
    for capacity in [1u32, 2, 5, 8] {
        let mut gate = RequestGate::new(local(capacity, 11), 0).unwrap();
        let mut proceeds = 0;
        let mut waits = 0;
        for call in 0..40u64 {
            match gate.try_acquire(call % 11) {
                GateDecision::Proceed => proceeds += 1,
                GateDecision::WaitFor(secs) => {
                    assert!(secs >= 1 && secs <= 11);
                    waits += 1;
                },
            }
        }
        assert_eq!(proceeds, capacity);
        assert_eq!(waits, 40 - capacity);
    }
}

#[test]
fn fewer_callers_than_capacity_all_proceed() {
    let mut gate = RequestGate::new(local(5, 11), 0).unwrap();
    for _ in 0..3 {
        assert_eq!(gate.try_acquire(1), GateDecision::Proceed);
    }
    assert_eq!(gate.budget().remaining(), 2);
}

#[test]
fn budget_refills_after_a_window() {
    let mut gate = RequestGate::new(local(2, 11), 100).unwrap();
    assert_eq!(gate.try_acquire(100), GateDecision::Proceed);
    assert_eq!(gate.try_acquire(101), GateDecision::Proceed);
    assert_eq!(gate.try_acquire(102), GateDecision::WaitFor(9));
    assert_eq!(gate.try_acquire(110), GateDecision::WaitFor(1));
    assert_eq!(gate.try_acquire(111), GateDecision::Proceed);
    assert_eq!(gate.since(), 111);
    assert_eq!(gate.budget().remaining(), 1);
    assert_eq!(gate.try_acquire(111), GateDecision::Proceed);
    assert_eq!(gate.try_acquire(111), GateDecision::WaitFor(11));
    assert_eq!(gate.try_acquire(500), GateDecision::Proceed);
    assert_eq!(gate.since(), 500);
}

#[test]
fn waiting_as_long_as_told_is_enough() {
    let mut gate = RequestGate::new(local(1, 11), 7).unwrap();
    assert_eq!(gate.try_acquire(9), GateDecision::Proceed);
    let now = 12;
    match gate.try_acquire(now) {
        GateDecision::WaitFor(secs) => {
            assert_eq!(secs, 6);
            assert_eq!(gate.try_acquire(now + secs - 1), GateDecision::WaitFor(1));
            assert_eq!(gate.try_acquire(now + secs), GateDecision::Proceed);
        },
        GateDecision::Proceed => panic!("the budget was spent"),
    }
}

#[test]
fn a_clock_that_runs_backwards_stands_still() {
    let mut gate = RequestGate::new(local(1, 11), 100).unwrap();
    assert_eq!(gate.try_acquire(100), GateDecision::Proceed);
    assert_eq!(gate.try_acquire(50), GateDecision::WaitFor(11));
    assert_eq!(gate.try_acquire(0), GateDecision::WaitFor(11));
}

#[test]
fn local_gate_takes_no_notice_of_headers() {
    let mut gate = RequestGate::new(local(5, 11), 0).unwrap();
    assert_eq!(gate.try_acquire(0), GateDecision::Proceed);
    gate.observe(&headers_of(&[("x-ratelimit-remaining", "0"), ("retry-after", "60")]), 3);
    assert_eq!(gate.budget().remaining(), 4);
    assert_eq!(gate.budget().retry_after(), 0);
    assert_eq!(gate.since(), 0);
    assert_eq!(gate.try_acquire(3), GateDecision::Proceed);
}

#[test]
fn server_fed_gate_goes_by_the_headers() {
    let mut gate = RequestGate::new(server_fed(), 0).unwrap();
    gate.observe(&headers_of(&[("x-ratelimit-limit", "5"), ("x-ratelimit-remaining", "4")]), 20);
    assert_eq!(gate.budget().limit(), 5);
    assert_eq!(gate.budget().remaining(), 4);
    assert_eq!(gate.since(), 20);
    for _ in 0..10 {
        assert_eq!(gate.try_acquire(20), GateDecision::Proceed);
    }
    assert_eq!(gate.budget().remaining(), 4);
}

#[test]
fn server_back_off_takes_precedence() {
    let mut gate = RequestGate::new(server_fed(), 0).unwrap();
    gate.observe(
        &headers_of(&[
            ("x-ratelimit-limit", "5"),
            ("x-ratelimit-remaining", "3"),
            ("retry-after", "5"),
        ]),
        100,
    );
    assert_eq!(gate.budget().remaining(), 3);
    assert_eq!(gate.try_acquire(100), GateDecision::WaitFor(6));
    assert_eq!(gate.try_acquire(103), GateDecision::WaitFor(3));
    assert_eq!(gate.try_acquire(105), GateDecision::WaitFor(1));
    assert_eq!(gate.try_acquire(106), GateDecision::Proceed);
}

#[test]
fn retry_after_three_keeps_the_gate_shut_for_three_seconds() {
    let mut gate = RequestGate::new(server_fed(), 0).unwrap();
    gate.observe(&headers_of(&[("x-ratelimit-remaining", "0"), ("retry-after", "3")]), 10);
    for now in 10..=13 {
        assert!(matches!(gate.try_acquire(now), GateDecision::WaitFor(_)), "second {}", now);
    }
    assert_eq!(gate.try_acquire(14), GateDecision::Proceed);
}

#[test]
fn missing_remaining_means_wait() {
    let mut gate = RequestGate::new(server_fed(), 0).unwrap();
    gate.observe(&headers_of(&[("x-ratelimit-limit", "5"), ("x-ratelimit-remaining", "5")]), 1);
    assert_eq!(gate.try_acquire(1), GateDecision::Proceed);
    gate.observe(&headers_of(&[("x-ratelimit-limit", "5")]), 2);
    assert_eq!(gate.budget().remaining(), 0);
    assert_eq!(gate.try_acquire(2), GateDecision::WaitFor(1));
}

#[test]
fn unparseable_remaining_means_wait() {
    let mut gate = RequestGate::new(server_fed(), 0).unwrap();
    gate.observe(&headers_of(&[("x-ratelimit-limit", "5"), ("x-ratelimit-remaining", "lots")]), 2);
    assert_eq!(gate.budget().remaining(), 0);
    assert_eq!(gate.try_acquire(2), GateDecision::WaitFor(1));
}

#[test]
fn the_longest_back_off_is_the_longest_wait() {
    let mut gate = RequestGate::new(server_fed(), 0).unwrap();
    gate.observe(&headers_of(&[("retry-after", "18446744073709551615")]), 0);
    assert_eq!(gate.try_acquire(0), GateDecision::WaitFor(u64::MAX));
    assert_eq!(gate.try_acquire(u64::MAX - 1), GateDecision::WaitFor(1));
    assert_eq!(gate.try_acquire(u64::MAX), GateDecision::Proceed);
}

#[test]
fn record_is_observe_on_what_was_read() {
    let mut gate = RequestGate::new(server_fed(), 0).unwrap();
    gate.record(RateHeaders { limit: 5, remaining: 3, retry_after: 5 }, 100);
    assert_eq!(gate.budget().limit(), 5);
    assert_eq!(gate.budget().remaining(), 3);
    assert_eq!(gate.budget().retry_after(), 5);
    assert_eq!(gate.since(), 100);
    assert_eq!(gate.try_acquire(100), GateDecision::WaitFor(6));

    let mut local_gate = RequestGate::new(local(5, 11), 0).unwrap();
    local_gate.record(RateHeaders { limit: 1, remaining: 0, retry_after: 60 }, 100);
    assert_eq!(local_gate.budget().limit(), 5);
    assert_eq!(local_gate.budget().remaining(), 5);
    assert_eq!(local_gate.since(), 0);
}

#[test]
fn callers_in_any_order_share_the_budget_without_granting_twice() {
    let capacity = 5u32;
    let times = [3u64, 0, 10, 7, 7, 1, 9, 2, 2, 10, 0, 5, 4, 8, 6, 3];
    let mut gate = RequestGate::new(local(capacity, 11), 0).unwrap();
    let mut proceeds = 0;
    let mut waits = 0;
    for now in times {
        match gate.try_acquire(now) {
            GateDecision::Proceed => proceeds += 1,
            GateDecision::WaitFor(secs) => {
                assert_eq!(secs, 11 - now);
                waits += 1;
            },
        }
    }
    assert_eq!(proceeds, capacity);
    assert_eq!(waits, times.len() as u32 - capacity);
    assert_eq!(gate.budget().remaining(), 0);
}

#[test]
fn an_unreadable_back_off_does_not_shut_the_gate() {
    let mut gate = RequestGate::new(server_fed(), 0).unwrap();
    gate.observe(
        &headers_of(&[
            ("x-ratelimit-limit", "5"),
            ("x-ratelimit-remaining", "3"),
            ("retry-after", "soon"),
        ]),
        100,
    );
    assert_eq!(gate.budget().retry_after(), 0);
    assert_eq!(gate.budget().remaining(), 3);
    assert_eq!(gate.try_acquire(100), GateDecision::Proceed);
}

#[test]
fn a_server_fed_budget_reopens_after_a_window_without_back_off() {
    let mut gate = RequestGate::new(server_fed(), 0).unwrap();
    gate.observe(&headers_of(&[("x-ratelimit-limit", "5"), ("x-ratelimit-remaining", "0")]), 50);
    assert_eq!(gate.try_acquire(50), GateDecision::WaitFor(1));
    assert_eq!(gate.try_acquire(61), GateDecision::Proceed);
    assert_eq!(gate.try_acquire(5000), GateDecision::Proceed);
}
