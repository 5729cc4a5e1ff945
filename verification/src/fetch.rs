//! The protocol of one fetch: ask the request gate, wait or give up, send the
//! request, show the request gate the response, hand the body on to be
//! decoded.
//!
//! The fetcher decides and its driver acts. The driver hands in what happened
//! (an [`Event`]) and gets back what to do next (an [`Action`]): it sends the
//! request, sleeps, and reads and decodes the body; the fetcher does none of
//! these itself.

use crate::gate::{
    lemma_wait_is_at_least_one, lemma_wait_is_enough, GateDecision, GateModel, RequestGate,
};
use crate::headers::{header_fields, rate_headers, RateHeaders};
use crate::middleware::BASE_URL;
use crate::prelude::{duration_from_secs, FetchError};
use reqwest::header::{HeaderMap, HeaderValue};
use vstd::prelude::*;

verus! {

/// The status of a response that carries the resource.
pub const HTTP_OK: u16 = 200;

/// How far a fetch has come.
#[derive(Clone, Copy, Debug, PartialEq, Eq, Structural)]
pub enum Phase {
    /// Nothing has happened yet.
    Ready,
    /// The driver was told to sleep.
    Sleeping,
    /// The driver was told to send the request. `blocked` says whether the
    /// fetch had to sleep before this request could go out.
    InFlight { blocked: bool },
    /// The fetch is over: the driver was told to decode the body, or to fail.
    Finished,
}

/// What the driver reports to the fetcher.
pub enum Event {
    /// The caller asks for the resource.
    Start,
    /// The sleep that the fetcher asked for is over.
    Woke,
    /// The request was answered with this status and these headers.
    Response { status: u16, headers: HeaderMap<HeaderValue> },
    /// The request failed in transport.
    TransportFailed(reqwest::Error),
}

/// What the fetcher tells the driver to do next.
#[derive(Debug)]
pub enum Action {
    /// Send a GET request to this URL and report the response, or the failure.
    Get(String),
    /// Sleep for this many seconds and report back.
    Sleep(u64),
    /// Read the body of the response at hand and decode it into the shape
    /// asked for. The fetch ends with what that gives.
    Decode,
    /// End the fetch with this error.
    Fail(FetchError),
}

/// An [`Action`] as a mathematical value.
pub enum ActionView {
    Get(Seq<char>),
    Sleep(u64),
    Decode,
    Fail(FetchError),
}

impl View for Action {
    type V = ActionView;

    open spec fn view(&self) -> ActionView {
        match *self {
            Action::Get(url) => ActionView::Get(url@),
            Action::Sleep(secs) => ActionView::Sleep(secs),
            Action::Decode => ActionView::Decode,
            Action::Fail(error) => ActionView::Fail(error),
        }
    }
}

/// Where one step takes a fetch.
pub struct Outcome {
    /// The phase after the step.
    pub phase: Phase,
    /// The request gate after the step.
    pub gate: GateModel,
    /// What the driver is to do, or `None` if the event has no place in the
    /// phase the fetch was in.
    pub action: Option<ActionView>,
}

/// Whether `event` is one that a fetch in `phase` waits for.
pub open spec fn expects(phase: Phase, event: Event) -> bool {
    match (phase, event) {
        (Phase::Ready, Event::Start) => true,
        (Phase::Sleeping, Event::Woke) => true,
        (Phase::InFlight { .. }, Event::Response { .. }) => true,
        (Phase::InFlight { .. }, Event::TransportFailed(_)) => true,
        _ => false,
    }
}

/// Asking the request gate at `now` on behalf of a fetch for `url`. If the
/// request gate grants, the request goes out. If it says to wait, a blocking
/// gate has the fetch sleep for as long as it said, and any other gate ends
/// the fetch with the rate limit reached, before any request is sent.
pub open spec fn consult(url: Seq<char>, gate: GateModel, now: nat, slept: bool) -> Outcome {
    match gate.decide(now) {
        GateDecision::Proceed => Outcome {
            phase: Phase::InFlight { blocked: slept },
            gate: gate.acquire(now),
            action: Some(ActionView::Get(url)),
        },
        GateDecision::WaitFor(secs) => if gate.config.blocking {
            Outcome {
                phase: Phase::Sleeping,
                gate: gate.acquire(now),
                action: Some(ActionView::Sleep(secs)),
            }
        } else {
            Outcome {
                phase: Phase::Finished,
                gate: gate.acquire(now),
                action: Some(
                    ActionView::Fail(FetchError::RateLimitReached(duration_from_secs(secs))),
                ),
            }
        },
    }
}

/// The step that a fetch for `url` in `phase` takes at `now` when its request
/// was answered with `status` and the report `seen`.
///
/// The report is shown to the request gate first, whatever the status. If the
/// fetch had to sleep for this request and the status is not 200, the request
/// gate, now up to date, is asked again and the same request is retried;
/// otherwise the body goes to be decoded. An answer that the phase does not
/// wait for changes nothing.
pub open spec fn answer_of(
    url: Seq<char>,
    phase: Phase,
    gate: GateModel,
    status: u16,
    seen: RateHeaders,
    now: nat,
) -> Outcome {
    match phase {
        Phase::InFlight { blocked } => if blocked && status != HTTP_OK {
            consult(url, gate.observe(seen, now), now, false)
        } else {
            Outcome {
                phase: Phase::Finished,
                gate: gate.observe(seen, now),
                action: Some(ActionView::Decode),
            }
        },
        _ => Outcome { phase, gate, action: None },
    }
}

/// The step that a fetch for `url` in `phase` takes on `event` at `now`.
///
/// - At the start, and whenever a sleep is over, the request gate is asked
///   ([`consult`]).
/// - A response is read for what it reports of the budget and then handled as
///   [`answer_of`] says.
/// - A failure in transport ends the fetch with that failure; nothing is
///   retried.
/// - An event that the phase does not wait for changes nothing.
pub open spec fn step_of(url: Seq<char>, phase: Phase, gate: GateModel, event: Event, now: nat)
    -> Outcome {
    match (phase, event) {
        (Phase::Ready, Event::Start) => consult(url, gate, now, false),
        (Phase::Sleeping, Event::Woke) => consult(url, gate, now, true),
        (Phase::InFlight { .. }, Event::Response { status, headers }) => answer_of(
            url,
            phase,
            gate,
            status,
            rate_headers(header_fields(headers)),
            now,
        ),
        (Phase::InFlight { .. }, Event::TransportFailed(error)) => Outcome {
            phase: Phase::Finished,
            gate,
            action: Some(ActionView::Fail(FetchError::RequestError(error))),
        },
        _ => Outcome { phase, gate, action: None },
    }
}

/// One fetch of one resource.
pub struct ResourceFetcher {
    url: String,
    phase: Phase,
}

impl ResourceFetcher {
    /// The URL that the fetch sends its request to.
    pub closed spec fn url(&self) -> Seq<char> {
        self.url@
    }

    /// How far the fetch has come.
    pub closed spec fn phase(&self) -> Phase {
        self.phase
    }

    /// A fetch of the resource at `endpoint`, a path below the base URL.
    pub fn new(endpoint: &str) -> (r: ResourceFetcher)
        ensures
            r.url() == BASE_URL@ + endpoint@,
            r.phase() == Phase::Ready,
    {
        let mut url = String::from_str(BASE_URL);
        url.append(endpoint);
        ResourceFetcher { url, phase: Phase::Ready }
    }

    /// How far the fetch has come.
    pub fn current_phase(&self) -> (r: Phase)
        ensures
            r == self.phase(),
    {
        self.phase
    }

    /// Whether the fetch is over.
    pub fn is_finished(&self) -> (r: bool)
        ensures
            r == (self.phase() == Phase::Finished),
    {
        match self.phase {
            Phase::Finished => true,
            _ => false,
        }
    }

    /// Asks the request gate and sets the phase by its answer.
    fn consult(&mut self, gate: &mut RequestGate, now: u64, slept: bool) -> (r: Action)
        ensures
            final(self).url() == old(self).url(),
            (Outcome { phase: final(self).phase(), gate: final(gate)@, action: Some(r@) }) == consult(
                old(self).url(),
                old(gate)@,
                now as nat,
                slept,
            ),
    {
        let blocking = gate.config().blocking;
        match gate.try_acquire(now) {
            GateDecision::Proceed => {
                self.phase = Phase::InFlight { blocked: slept };
                Action::Get(self.url.clone())
            },
            GateDecision::WaitFor(secs) => {
                if blocking {
                    self.phase = Phase::Sleeping;
                    Action::Sleep(secs)
                } else {
                    self.phase = Phase::Finished;
                    Action::Fail(FetchError::rate_limit_reached(secs))
                }
            },
        }
    }

    /// Hears, at the second `now`, that the request was answered with `status`
    /// and the report `seen`, and says what to do next. Answers `None`, and
    /// changes nothing, where no request is in flight.
    pub fn answer(&mut self, gate: &mut RequestGate, status: u16, seen: RateHeaders, now: u64) -> (r:
        Option<Action>)
        ensures
            final(self).url() == old(self).url(),
            r is Some <==> old(self).phase() is InFlight,
            (Outcome {
                phase: final(self).phase(),
                gate: final(gate)@,
                action: match r {
                    Some(action) => Some(action@),
                    None => None,
                },
            }) == answer_of(
                old(self).url(),
                old(self).phase(),
                old(gate)@,
                status,
                seen,
                now as nat,
            ),
    {
        match self.phase {
            Phase::InFlight { blocked } => {
                gate.record(seen, now);
                if blocked && status != HTTP_OK {
                    Some(self.consult(gate, now, false))
                } else {
                    self.phase = Phase::Finished;
                    Some(Action::Decode)
                }
            },
            _ => None,
        }
    }

    /// Takes one step: hears what happened at the second `now` and says what
    /// to do next. Answers `None`, and changes nothing, where `event` is not
    /// one that the fetch waits for in its phase.
    pub fn step(&mut self, gate: &mut RequestGate, event: Event, now: u64) -> (r: Option<Action>)
        ensures
            final(self).url() == old(self).url(),
            r is Some <==> expects(old(self).phase(), event),
            (Outcome {
                phase: final(self).phase(),
                gate: final(gate)@,
                action: match r {
                    Some(action) => Some(action@),
                    None => None,
                },
            }) == step_of(old(self).url(), old(self).phase(), old(gate)@, event, now as nat),
    {
        match event {
            Event::Start => match self.phase {
                Phase::Ready => Some(self.consult(gate, now, false)),
                _ => None,
            },
            Event::Woke => match self.phase {
                Phase::Sleeping => Some(self.consult(gate, now, true)),
                _ => None,
            },
            Event::Response { status, headers } => {
                self.answer(gate, status, RateHeaders::read(&headers), now)
            },
            Event::TransportFailed(error) => match self.phase {
                Phase::InFlight { .. } => {
                    self.phase = Phase::Finished;
                    Some(Action::Fail(FetchError::RequestError(error)))
                },
                _ => None,
            },
        }
    }
}

/// No request without a grant: a fetch that asks the request gate sends its
/// request if and only if the answer is `Proceed`, and leaves the request
/// gate as that answer leaves it. So the requests that fetches send are
/// exactly the grants that were handed out.
pub proof fn lemma_request_needs_a_grant(url: Seq<char>, gate: GateModel, now: nat, slept: bool)
    ensures
        consult(url, gate, now, slept).action == Some(ActionView::Get(url)) <==> gate.decide(now)
            == GateDecision::Proceed,
        consult(url, gate, now, slept).gate == gate.acquire(now),
{
}

/// A closed gate fails fast: where the request gate is not blocking and tells
/// the fetch to wait `secs` seconds, the fetch ends at its first step with the
/// rate limit reached, carrying that wait. No request goes out, and the
/// request gate is as it was.
pub proof fn lemma_closed_gate_fails_fast(url: Seq<char>, gate: GateModel, now: nat, secs: u64)
    requires
        gate.wf(),
        !gate.config.blocking,
        gate.decide(now) == GateDecision::WaitFor(secs),
    ensures
        step_of(url, Phase::Ready, gate, Event::Start, now) == (Outcome {
            phase: Phase::Finished,
            gate,
            action: Some(ActionView::Fail(FetchError::RateLimitReached(duration_from_secs(secs)))),
        }),
{
    lemma_wait_is_at_least_one(gate, now);
}

/// A fetch on a blocking gate never ends with the rate limit reached: while
/// the budget is spent it is told to sleep.
pub proof fn lemma_blocking_never_reports_the_limit(
    url: Seq<char>,
    phase: Phase,
    gate: GateModel,
    event: Event,
    now: nat,
)
    requires
        gate.config.blocking,
    ensures
        !(step_of(url, phase, gate, event, now).action matches Some(
            ActionView::Fail(FetchError::RateLimitReached(_)),
        )),
{
}

/// A fetch on a gate that is not blocking is never told to sleep.
pub proof fn lemma_fail_fast_never_sleeps(
    url: Seq<char>,
    phase: Phase,
    gate: GateModel,
    event: Event,
    now: nat,
)
    requires
        !gate.config.blocking,
        phase != Phase::Sleeping,
    ensures
        !(step_of(url, phase, gate, event, now).action matches Some(ActionView::Sleep(_))),
        step_of(url, phase, gate, event, now).phase != Phase::Sleeping,
{
}

/// A fetch that was told to sleep and is woken no earlier than asked sends its
/// request next, as long as nothing else was granted or observed in between.
/// Holds for a clock that has not fallen behind the request gate's own mark.
pub proof fn lemma_sleep_then_send(url: Seq<char>, gate: GateModel, now: nat, later: nat, secs: u64)
    requires
        gate.wf(),
        gate.since <= now,
        gate.decide(now) == GateDecision::WaitFor(secs),
        later >= now + secs,
    ensures
        step_of(url, Phase::Sleeping, gate, Event::Woke, later).action == Some(
            ActionView::Get(url),
        ),
        step_of(url, Phase::Sleeping, gate, Event::Woke, later).phase == (Phase::InFlight {
            blocked: true,
        }),
{
    lemma_wait_is_enough(gate, now, later);
}

/// Every response is shown to the request gate before anything else is
/// decided, whatever its status: after the step the request gate is the one
/// that has observed the report, and has at most been asked once since.
pub proof fn lemma_response_is_observed(
    url: Seq<char>,
    blocked: bool,
    gate: GateModel,
    status: u16,
    seen: RateHeaders,
    now: nat,
)
    ensures
        ({
            let after = answer_of(url, Phase::InFlight { blocked }, gate, status, seen, now).gate;
            after == gate.observe(seen, now) || after == gate.observe(seen, now).acquire(now)
        }),
{
}

/// A fetch that is over stays over: no event moves it.
pub proof fn lemma_finished_is_final(url: Seq<char>, gate: GateModel, event: Event, now: nat)
    ensures
        step_of(url, Phase::Finished, gate, event, now) == (Outcome {
            phase: Phase::Finished,
            gate,
            action: None,
        }),
{
}

} // verus!
