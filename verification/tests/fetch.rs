use helldivers2_rs::fetch::{Action, Event, Phase, ResourceFetcher, HTTP_OK};
use helldivers2_rs::gate::{GateConfig, GateDecision, GateMode, RequestGate};
use helldivers2_rs::headers::RateHeaders;
use helldivers2_rs::prelude::{body_outcome, shape_outcome, FetchError};
use reqwest::header::{HeaderMap, HeaderValue};
use std::time::Duration;

fn gate(mode: GateMode, blocking: bool, now: u64) -> RequestGate {
    RequestGate::new(GateConfig { capacity: 2, window: 11, mode, blocking }, now).unwrap()
}

fn headers_of(fields: &[(&'static str, &'static str)]) -> HeaderMap {
    let mut headers = HeaderMap::new();
    for (name, value) in fields {
        headers.append(*name, HeaderValue::from_static(value));
    }
    headers
}

fn response(status: u16, fields: &[(&'static str, &'static str)]) -> Event {
    Event::Response { status, headers: headers_of(fields) }
}

fn transport_error() -> reqwest::Error {
    reqwest::Client::new().get("no url at all").build().unwrap_err()
}

fn expect_get(action: Option<Action>, url: &str) {
    match action {
        Some(Action::Get(to)) => assert_eq!(to, url),
        other => panic!("expected a request, got {:?}", other),
    }
}

fn expect_sleep(action: Option<Action>, secs: u64) {
    match action {
        Some(Action::Sleep(for_secs)) => assert_eq!(for_secs, secs),
        other => panic!("expected a sleep, got {:?}", other),
    }
}

const WAR: &str = "https://api.helldivers2.dev/api/v1/war";

#[test]
fn status_ok_is_200() {
    assert_eq!(HTTP_OK, 200);
}

#[test]
fn a_new_fetch_is_ready() {
    let fetcher = ResourceFetcher::new("/api/v1/war");
    assert_eq!(fetcher.current_phase(), Phase::Ready);
    assert!(!fetcher.is_finished());
}

#[test]
fn open_gate_sends_the_request_to_base_url_and_endpoint() {
    let mut gate = gate(GateMode::LocalEstimate, false, 0);
    let mut fetcher = ResourceFetcher::new("/api/v1/war");
    expect_get(fetcher.step(&mut gate, Event::Start, 0), WAR);
    assert_eq!(fetcher.current_phase(), Phase::InFlight { blocked: false });
    assert_eq!(gate.budget().remaining(), 1);
    assert!(matches!(fetcher.step(&mut gate, response(200, &[]), 1), Some(Action::Decode)));
    assert!(fetcher.is_finished());
}

#[test]
fn fail_fast_on_a_closed_gate_sends_nothing() {
    let mut gate = gate(GateMode::LocalEstimate, false, 0);
    assert_eq!(gate.try_acquire(0), GateDecision::Proceed);
    assert_eq!(gate.try_acquire(0), GateDecision::Proceed);
    let mut fetcher = ResourceFetcher::new("/api/v1/war");
    match fetcher.step(&mut gate, Event::Start, 4) {
        Some(Action::Fail(FetchError::RateLimitReached(wait))) => {
            assert_eq!(wait, Duration::from_secs(7));
        },
        other => panic!("expected the rate limit to be reached, got {:?}", other),
    }
    assert!(fetcher.is_finished());
    assert!(fetcher.step(&mut gate, Event::Start, 4).is_none());
    assert!(fetcher.step(&mut gate, Event::Woke, 20).is_none());
    assert!(fetcher.step(&mut gate, response(200, &[]), 20).is_none());
}

#[test]
fn fail_fast_on_a_fresh_server_fed_gate_reports_one_second() {
    let mut gate = gate(GateMode::ServerFed, false, 0);
    let mut fetcher = ResourceFetcher::new("/api/v1/war");
    match fetcher.step(&mut gate, Event::Start, 0) {
        Some(Action::Fail(FetchError::RateLimitReached(wait))) => {
            assert_eq!(wait, Duration::from_secs(1));
        },
        other => panic!("expected the rate limit to be reached, got {:?}", other),
    }
}

#[test]
fn blocking_fetch_sleeps_then_sends() {
    let mut gate = gate(GateMode::ServerFed, true, 0);
    let mut fetcher = ResourceFetcher::new("/api/v1/war");
    expect_sleep(fetcher.step(&mut gate, Event::Start, 0), 1);
    assert_eq!(fetcher.current_phase(), Phase::Sleeping);
    expect_get(fetcher.step(&mut gate, Event::Woke, 1), WAR);
    assert_eq!(fetcher.current_phase(), Phase::InFlight { blocked: true });
    let seen = response(200, &[("x-ratelimit-limit", "5"), ("x-ratelimit-remaining", "4")]);
    assert!(matches!(fetcher.step(&mut gate, seen, 2), Some(Action::Decode)));
    assert!(fetcher.is_finished());
    assert_eq!(gate.budget().remaining(), 4);
    assert_eq!(gate.since(), 2);
}

#[test]
fn waking_early_sleeps_for_the_rest() {
    let mut gate = gate(GateMode::LocalEstimate, true, 0);
    assert_eq!(gate.try_acquire(0), GateDecision::Proceed);
    assert_eq!(gate.try_acquire(0), GateDecision::Proceed);
    let mut fetcher = ResourceFetcher::new("/api/v1/war");
    expect_sleep(fetcher.step(&mut gate, Event::Start, 1), 10);
    expect_sleep(fetcher.step(&mut gate, Event::Woke, 8), 3);
    expect_get(fetcher.step(&mut gate, Event::Woke, 11), WAR);
    assert_eq!(gate.budget().remaining(), 1);
}

#[test]
fn blocked_request_answered_with_429_waits_again_and_retries() {
    let mut gate = gate(GateMode::ServerFed, true, 0);
    let mut fetcher = ResourceFetcher::new("/api/v1/war");
    expect_sleep(fetcher.step(&mut gate, Event::Start, 0), 1);
    expect_get(fetcher.step(&mut gate, Event::Woke, 1), WAR);
    let busy = response(429, &[("x-ratelimit-remaining", "0"), ("retry-after", "3")]);
    expect_sleep(fetcher.step(&mut gate, busy, 2), 4);
    assert_eq!(fetcher.current_phase(), Phase::Sleeping);
    assert_eq!(gate.budget().retry_after(), 3);
    expect_sleep(fetcher.step(&mut gate, Event::Woke, 5), 1);
    expect_get(fetcher.step(&mut gate, Event::Woke, 6), WAR);
    assert!(matches!(fetcher.step(&mut gate, response(200, &[]), 7), Some(Action::Decode)));
}

#[test]
fn blocked_request_answered_badly_retries_at_once_if_the_budget_allows() {
    let mut gate = gate(GateMode::ServerFed, true, 0);
    let mut fetcher = ResourceFetcher::new("/api/v1/war");
    expect_sleep(fetcher.step(&mut gate, Event::Start, 0), 1);
    expect_get(fetcher.step(&mut gate, Event::Woke, 1), WAR);
    let broken = response(500, &[("x-ratelimit-remaining", "4")]);
    expect_get(fetcher.step(&mut gate, broken, 2), WAR);
    assert_eq!(fetcher.current_phase(), Phase::InFlight { blocked: false });
    let broken = response(500, &[("x-ratelimit-remaining", "3")]);
    assert!(matches!(fetcher.step(&mut gate, broken, 3), Some(Action::Decode)));
}

#[test]
fn a_429_updates_the_gate_before_the_body_is_looked_at() {
    let mut gate = gate(GateMode::ServerFed, false, 0);
    gate.observe(&headers_of(&[("x-ratelimit-remaining", "5")]), 0);
    let mut fetcher = ResourceFetcher::new("/api/v1/planets");
    expect_get(fetcher.step(&mut gate, Event::Start, 0), "https://api.helldivers2.dev/api/v1/planets");
    let busy = response(429, &[("retry-after", "3")]);
    assert!(matches!(fetcher.step(&mut gate, busy, 10), Some(Action::Decode)));
    assert_eq!(gate.budget().retry_after(), 3);
    for now in 10..=13 {
        assert!(matches!(gate.try_acquire(now), GateDecision::WaitFor(_)));
    }
    let mut next = ResourceFetcher::new("/api/v1/planets");
    match next.step(&mut gate, Event::Start, 11) {
        Some(Action::Fail(FetchError::RateLimitReached(wait))) => {
            assert_eq!(wait, Duration::from_secs(3));
        },
        other => panic!("expected the rate limit to be reached, got {:?}", other),
    }
}

#[test]
fn transport_failure_ends_the_fetch_with_that_failure() {
    let mut gate = gate(GateMode::LocalEstimate, true, 0);
    let mut fetcher = ResourceFetcher::new("/api/v1/war");
    expect_get(fetcher.step(&mut gate, Event::Start, 0), WAR);
    let failure = transport_error();
    let told = format!("{:?}", failure);
    match fetcher.step(&mut gate, Event::TransportFailed(failure), 1) {
        Some(Action::Fail(FetchError::RequestError(cause))) => {
            assert_eq!(format!("{:?}", cause), told);
        },
        other => panic!("expected the transport failure, got {:?}", other),
    }
    assert!(fetcher.is_finished());
    assert_eq!(gate.budget().remaining(), 1);
}

#[test]
fn transport_failure_while_blocked_is_not_retried() {
    let mut gate = gate(GateMode::ServerFed, true, 0);
    let mut fetcher = ResourceFetcher::new("/api/v1/war");
    expect_sleep(fetcher.step(&mut gate, Event::Start, 0), 1);
    expect_get(fetcher.step(&mut gate, Event::Woke, 1), WAR);
    let action = fetcher.step(&mut gate, Event::TransportFailed(transport_error()), 2);
    assert!(matches!(action, Some(Action::Fail(FetchError::RequestError(_)))));
    assert!(fetcher.is_finished());
}

#[test]
fn events_out_of_turn_change_nothing() {
    let mut gate = gate(GateMode::LocalEstimate, true, 0);
    let mut fetcher = ResourceFetcher::new("/api/v1/war");
    assert!(fetcher.step(&mut gate, Event::Woke, 0).is_none());
    assert!(fetcher.step(&mut gate, response(200, &[]), 0).is_none());
    assert!(fetcher.step(&mut gate, Event::TransportFailed(transport_error()), 0).is_none());
    assert_eq!(fetcher.current_phase(), Phase::Ready);
    assert_eq!(gate.budget().remaining(), 2);
    expect_get(fetcher.step(&mut gate, Event::Start, 0), WAR);
    assert!(fetcher.step(&mut gate, Event::Start, 0).is_none());
    assert!(fetcher.step(&mut gate, Event::Woke, 0).is_none());
    assert_eq!(fetcher.current_phase(), Phase::InFlight { blocked: false });
    assert_eq!(gate.budget().remaining(), 1);
}

#[test]
fn errors_convert_from_their_causes() {
    let error = FetchError::from(transport_error());
    assert!(matches!(error, FetchError::RequestError(_)));
    let cause = serde_json::from_str::<serde_json::Value>("{").unwrap_err();
    let error = FetchError::from(cause);
    assert!(matches!(error, FetchError::ParseError(_)));
    match FetchError::rate_limit_reached(6) {
        FetchError::RateLimitReached(wait) => assert_eq!(wait, Duration::from_secs(6)),
        other => panic!("expected the rate limit to be reached, got {:?}", other),
    }
}

#[test]
fn answer_takes_the_report_by_value() {
    let mut gate = gate(GateMode::ServerFed, true, 0);
    let mut fetcher = ResourceFetcher::new("/api/v1/war");
    let quiet = RateHeaders { limit: 5, remaining: 4, retry_after: 0 };
    assert!(fetcher.answer(&mut gate, 200, quiet, 0).is_none());
    assert_eq!(gate.budget().remaining(), 0);
    expect_sleep(fetcher.step(&mut gate, Event::Start, 0), 1);
    expect_get(fetcher.step(&mut gate, Event::Woke, 1), WAR);
    let busy = RateHeaders { limit: 5, remaining: 0, retry_after: 9 };
    expect_sleep(fetcher.answer(&mut gate, 429, busy, 2), 10);
    expect_get(fetcher.step(&mut gate, Event::Woke, 12), WAR);
    assert!(matches!(fetcher.answer(&mut gate, 200, quiet, 13), Some(Action::Decode)));
    assert_eq!(gate.budget().remaining(), 4);
    assert!(fetcher.is_finished());
}

#[test]
fn a_body_that_cannot_be_read_is_a_request_error() {
    let read: Result<String, reqwest::Error> = Err(transport_error());
    assert!(matches!(body_outcome(read), Err(FetchError::RequestError(_))));
    let read: Result<String, reqwest::Error> = Ok(String::from("{}"));
    assert_eq!(body_outcome(read).unwrap(), "{}");
}

#[test]
fn a_body_of_the_wrong_shape_is_a_parse_error() {
    let decoded = serde_json::from_str::<u32>("\"five\"");
    assert!(matches!(shape_outcome(decoded), Err(FetchError::ParseError(_))));
    let decoded = serde_json::from_str::<u32>("5");
    assert_eq!(shape_outcome(decoded).unwrap(), 5);
}
