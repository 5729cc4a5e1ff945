//! The request gate: the one place that decides, before every outbound call,
//! whether the call may go out now or how long it has to wait.
//!
//! The request gate owns the rate budget. It never fails and never sleeps: it
//! hands out decisions, and the caller waits or gives up. Time is a count of
//! whole seconds on a clock of the caller's choice, handed in with every call;
//! a clock that runs backwards is read as one that stands still.
//!
//! Access to the request gate is exclusive by construction: `try_acquire` and
//! `observe` take `&mut self`, so callers that share one gate between threads
//! or tasks put it behind a lock, and every interleaving of their calls is one
//! of the sequences that the laws at the end of this module speak of.

use crate::decimal::unsigned_value;
use crate::headers::{field, header_fields, rate_headers, RateHeaders, REMAINING};
use crate::middleware::{RateBudget, RateLimit};
use reqwest::header::{HeaderMap, HeaderValue};
use vstd::prelude::*;

verus! {

/// Requests per window of a gate that is configured with nothing else.
pub const DEFAULT_CAPACITY: u32 = 5;

/// Seconds in a window of a gate that is configured with nothing else: one
/// more than the ten seconds of the upstream service, to absorb clock skew.
pub const DEFAULT_WINDOW: u64 = 11;

/// Where the request gate takes its budget from.
#[derive(Clone, Copy, Debug, PartialEq, Eq, Structural)]
pub enum GateMode {
    /// The request gate counts its own grants against `capacity` per `window`
    /// and ignores what the service reports.
    LocalEstimate,
    /// The request gate goes by the budget that the service reported in the
    /// headers of its latest response.
    ServerFed,
}

/// What the request gate tells a caller that wants to send a request.
#[derive(Clone, Copy, Debug, PartialEq, Eq, Structural)]
pub enum GateDecision {
    /// The request may go out now.
    Proceed,
    /// The request may not go out before this many seconds have passed. Never
    /// zero.
    WaitFor(u64),
}

/// The options of a gate.
#[derive(Clone, Copy, Debug, PartialEq, Eq, Structural)]
pub struct GateConfig {
    /// Requests allowed per window.
    pub capacity: u32,
    /// Length of one window, in seconds.
    pub window: u64,
    /// Where the budget comes from.
    pub mode: GateMode,
    /// Whether a caller that has to wait sleeps and tries again (`true`) or is
    /// told at once that the rate limit is reached (`false`).
    pub blocking: bool,
}

impl GateConfig {
    /// A configuration is usable if it grants at least one request per window
    /// and its window lasts at least one second.
    pub open spec fn valid(self) -> bool {
        self.capacity >= 1 && self.window >= 1
    }

    /// Whether the configuration is usable.
    pub fn is_valid(&self) -> (r: bool)
        ensures
            r == self.valid(),
    {
        self.capacity >= 1 && self.window >= 1
    }
}

impl Default for GateConfig {
    /// Five requests per eleven seconds, budget fed by the service, callers
    /// wait.
    fn default() -> (r: GateConfig)
        ensures
            r == (GateConfig {
                capacity: DEFAULT_CAPACITY,
                window: DEFAULT_WINDOW,
                mode: GateMode::ServerFed,
                blocking: true,
            }),
            r.valid(),
    {
        GateConfig {
            capacity: DEFAULT_CAPACITY,
            window: DEFAULT_WINDOW,
            mode: GateMode::ServerFed,
            blocking: true,
        }
    }
}

/// The request gate as a mathematical value.
pub struct GateModel {
    /// The options the request gate was made with.
    pub config: GateConfig,
    /// The budget. Under the local estimate, `remaining` counts the grants
    /// left in the current window.
    pub budget: RateBudget,
    /// Under the local estimate, the second at which the current window began;
    /// fed by the service, the second at which the budget was last observed.
    pub since: nat,
}

impl GateModel {
    /// The request gate's invariant.
    pub open spec fn wf(self) -> bool {
        &&& self.config.valid()
        &&& self.budget.limit <= u32::MAX
        &&& self.budget.remaining <= u32::MAX
        &&& self.budget.retry_after <= u64::MAX
        &&& self.since <= u64::MAX
        &&& self.config.mode == GateMode::LocalEstimate ==> {
            &&& self.budget.limit == self.config.capacity
            &&& self.budget.remaining <= self.config.capacity
            &&& self.budget.retry_after == 0
        }
    }

    /// The request gate that `config` describes, made at the second `now`. A
    /// local estimate starts with a full window; a gate fed by the service
    /// starts with nothing remaining, until a first response says more.
    pub open spec fn initial(config: GateConfig, now: nat) -> GateModel {
        GateModel {
            config,
            budget: RateBudget {
                limit: config.capacity as nat,
                remaining: match config.mode {
                    GateMode::LocalEstimate => config.capacity as nat,
                    GateMode::ServerFed => 0,
                },
                retry_after: 0,
            },
            since: now,
        }
    }

    /// Seconds that have passed at `now` since the window began or the budget
    /// was observed.
    pub open spec fn elapsed(self, now: nat) -> nat {
        if now >= self.since {
            (now - self.since) as nat
        } else {
            0
        }
    }

    /// Whether, under the local estimate, the window has run out at `now`, so
    /// that the next call opens a new one with a full budget.
    pub open spec fn refills(self, now: nat) -> bool {
        self.config.mode == GateMode::LocalEstimate && self.elapsed(now) >= self.config.window
    }

    /// What the request gate answers at `now`.
    pub open spec fn decide(self, now: nat) -> GateDecision {
        match self.config.mode {
            GateMode::LocalEstimate => if self.refills(now) || self.budget.remaining > 0 {
                GateDecision::Proceed
            } else {
                GateDecision::WaitFor((self.config.window - self.elapsed(now)) as u64)
            },
            GateMode::ServerFed => if self.budget.wait_left(self.elapsed(now)) == 0 {
                GateDecision::Proceed
            } else {
                GateDecision::WaitFor(self.budget.wait_left(self.elapsed(now)) as u64)
            },
        }
    }

    /// The request gate after it has answered at `now`. Only a grant under the
    /// local estimate changes it: it takes one request from the budget, of a
    /// new window where the old one had run out.
    pub open spec fn acquire(self, now: nat) -> GateModel {
        match self.config.mode {
            GateMode::LocalEstimate => if self.refills(now) {
                GateModel {
                    budget: RateBudget {
                        remaining: (self.config.capacity - 1) as nat,
                        ..self.budget
                    },
                    since: now,
                    ..self
                }
            } else if self.budget.remaining > 0 {
                GateModel {
                    budget: RateBudget {
                        remaining: (self.budget.remaining - 1) as nat,
                        ..self.budget
                    },
                    ..self
                }
            } else {
                self
            },
            GateMode::ServerFed => self,
        }
    }

    /// The request gate after it was shown, at `now`, what a response
    /// reported. Fed by the service, the budget is overwritten by the report;
    /// under the local estimate nothing changes.
    pub open spec fn observe(self, seen: RateHeaders, now: nat) -> GateModel {
        match self.config.mode {
            GateMode::LocalEstimate => self,
            GateMode::ServerFed => GateModel {
                budget: RateBudget::observed(seen),
                since: now,
                ..self
            },
        }
    }

    /// The request gate after it has answered at each of `times` in turn.
    pub open spec fn run(self, times: Seq<nat>) -> GateModel
        decreases times.len(),
    {
        if times.len() == 0 {
            self
        } else {
            self.acquire(times[0]).run(times.skip(1))
        }
    }

    /// How many of the calls at `times`, made in turn, are answered with
    /// `Proceed`.
    pub open spec fn proceeds(self, times: Seq<nat>) -> nat
        decreases times.len(),
    {
        if times.len() == 0 {
            0
        } else {
            let first: nat = if self.decide(times[0]) is Proceed {
                1
            } else {
                0
            };
            first + self.acquire(times[0]).proceeds(times.skip(1))
        }
    }
}

/// The rate-limited request gate.
pub struct RequestGate {
    config: GateConfig,
    budget: RateLimit,
    since: u64,
}

impl View for RequestGate {
    type V = GateModel;

    closed spec fn view(&self) -> GateModel {
        GateModel { config: self.config, budget: self.budget@, since: self.since as nat }
    }
}

impl RequestGate {
    #[verifier::type_invariant]
    spec fn inv(self) -> bool {
        self@.wf()
    }

    /// Makes the request gate that `config` describes, at the second `now`.
    /// There is no gate for a configuration that is not usable.
    pub fn new(config: GateConfig, now: u64) -> (r: Option<RequestGate>)
        ensures
            match r {
                Some(gate) => config.valid() && gate@ == GateModel::initial(config, now as nat)
                    && gate@.wf(),
                None => !config.valid(),
            },
    {
        if !config.is_valid() {
            return None;
        }
        let remaining = match config.mode {
            GateMode::LocalEstimate => config.capacity,
            GateMode::ServerFed => 0,
        };
        Some(RequestGate { config, budget: RateLimit::new(config.capacity, remaining, 0), since: now })
    }

    /// The options the request gate was made with.
    pub fn config(&self) -> (r: GateConfig)
        ensures
            r == self@.config,
            self@.wf(),
    {
        proof {
            use_type_invariant(self);
        }
        self.config
    }

    /// Sets whether a caller that has to wait sleeps and tries again or is
    /// told at once that the rate limit is reached. The budget is untouched.
    pub fn set_blocking(&mut self, blocking: bool)
        ensures
            final(self)@ == (GateModel {
                config: GateConfig { blocking, ..old(self)@.config },
                ..old(self)@
            }),
            final(self)@.wf(),
    {
        proof {
            use_type_invariant(&*self);
        }
        *self = RequestGate {
            config: GateConfig {
                capacity: self.config.capacity,
                window: self.config.window,
                mode: self.config.mode,
                blocking,
            },
            budget: RateLimit::new(
                self.budget.limit(),
                self.budget.remaining(),
                self.budget.retry_after(),
            ),
            since: self.since,
        };
    }

    /// The budget as the request gate holds it.
    pub fn budget(&self) -> (r: &RateLimit)
        ensures
            r@ == self@.budget,
    {
        &self.budget
    }

    /// The second at which the current window began or the budget was last
    /// observed.
    pub fn since(&self) -> (r: u64)
        ensures
            r == self@.since,
    {
        self.since
    }

    /// Seconds that have passed at `now` since the window began or the budget
    /// was observed.
    fn elapsed(&self, now: u64) -> (r: u64)
        ensures
            r == self@.elapsed(now as nat),
    {
        if now >= self.since {
            now - self.since
        } else {
            0
        }
    }

    /// Asks, at the second `now`, whether a request may go out, without
    /// waiting. `Proceed` under the local estimate takes one request from the
    /// budget; any other answer leaves the request gate as it was.
    pub fn try_acquire(&mut self, now: u64) -> (r: GateDecision)
        ensures
            r == old(self)@.decide(now as nat),
            final(self)@ == old(self)@.acquire(now as nat),
            final(self)@.wf(),
            r matches GateDecision::WaitFor(secs) ==> secs >= 1 && final(self)@ == old(self)@,
    {
        proof {
            use_type_invariant(&*self);
        }
        let elapsed = self.elapsed(now);
        match self.config.mode {
            GateMode::LocalEstimate => {
                if elapsed >= self.config.window {
                    *self = RequestGate {
                        config: self.config,
                        budget: RateLimit::new(self.config.capacity, self.config.capacity - 1, 0),
                        since: now,
                    };
                    GateDecision::Proceed
                } else if self.budget.remaining() > 0 {
                    *self = RequestGate {
                        config: self.config,
                        budget: RateLimit::new(
                            self.config.capacity,
                            self.budget.remaining() - 1,
                            0,
                        ),
                        since: self.since,
                    };
                    GateDecision::Proceed
                } else {
                    GateDecision::WaitFor(self.config.window - elapsed)
                }
            },
            GateMode::ServerFed => {
                let left = self.budget.wait_after(elapsed);
                if left == 0 {
                    GateDecision::Proceed
                } else {
                    GateDecision::WaitFor(left)
                }
            },
        }
    }

    /// Shows the request gate, at the second `now`, what a response reported.
    /// A gate fed by the service overwrites its budget with the report; a
    /// local estimate takes no notice.
    pub fn record(&mut self, seen: RateHeaders, now: u64)
        ensures
            final(self)@ == old(self)@.observe(seen, now as nat),
            final(self)@.wf(),
    {
        proof {
            use_type_invariant(&*self);
        }
        match self.config.mode {
            GateMode::LocalEstimate => {},
            GateMode::ServerFed => {
                *self = RequestGate {
                    config: self.config,
                    budget: RateLimit::new(seen.limit, seen.remaining, seen.retry_after),
                    since: now,
                };
            },
        }
    }

    /// Shows the request gate, at the second `now`, the headers of a response:
    /// reads the rate-limit fields and records what they report.
    pub fn observe(&mut self, headers: &HeaderMap<HeaderValue>, now: u64)
        ensures
            final(self)@ == old(self)@.observe(rate_headers(header_fields(*headers)), now as nat),
            final(self)@.wf(),
    {
        self.record(RateHeaders::read(headers), now);
    }
}

/// The request gate's invariant outlasts every call of `try_acquire`.
pub proof fn lemma_acquire_keeps_wf(g: GateModel, now: nat)
    requires
        g.wf(),
        now <= u64::MAX,
    ensures
        g.acquire(now).wf(),
        g.acquire(now).config == g.config,
{
}

/// A caller is never told to wait for less than one second, and being told to
/// wait changes nothing in the request gate.
pub proof fn lemma_wait_is_at_least_one(g: GateModel, now: nat)
    requires
        g.wf(),
    ensures
        g.decide(now) matches GateDecision::WaitFor(secs) ==> secs >= 1 && g.acquire(now) == g,
{
}

/// Who has waited as long as the request gate said is let through: after
/// `WaitFor(d)` at `now`, the request gate answers `Proceed` at every second
/// from `now + d` on, as long as nothing else was granted or observed in
/// between. Holds for a clock that has not fallen behind the request gate's
/// own mark.
pub proof fn lemma_wait_is_enough(g: GateModel, now: nat, later: nat)
    requires
        g.wf(),
        g.since <= now,
        g.decide(now) matches GateDecision::WaitFor(secs) && later >= now + secs,
    ensures
        g.decide(later) == GateDecision::Proceed,
{
}

/// Budget monotonicity and exclusivity under the local estimate: of any calls
/// made within the current window, in any order and however many callers they
/// come from, exactly as many are granted as the budget has left, and all the
/// others are told to wait. In particular never more than `capacity`, and no
/// request of the budget is granted twice.
pub proof fn lemma_budget_within_window(g: GateModel, times: Seq<nat>)
    requires
        g.wf(),
        g.config.mode == GateMode::LocalEstimate,
        forall|i: int| 0 <= i < times.len() ==> times[i] < g.since + g.config.window,
    ensures
        g.proceeds(times) == if times.len() <= g.budget.remaining {
            times.len()
        } else {
            g.budget.remaining
        },
        g.proceeds(times) <= g.config.capacity,
        g.run(times).budget.remaining == g.budget.remaining - g.proceeds(times),
        g.run(times).since == g.since,
    decreases times.len(),
{
    if times.len() > 0 {
        let next = g.acquire(times[0]);
        let rest = times.skip(1);
        assert(!g.refills(times[0]));
        assert forall|i: int| 0 <= i < rest.len() implies rest[i] < next.since
            + next.config.window by {
            assert(rest[i] == times[i + 1]);
        }
        lemma_budget_within_window(next, rest);
    }
}

/// Budget monotonicity for a window that a call opens: take any call, and
/// after it any calls that fall into the window that is current once the first
/// was answered. Of all of them together no more than `capacity` are granted.
pub proof fn lemma_budget_of_a_window(g: GateModel, first: nat, rest: Seq<nat>)
    requires
        g.wf(),
        g.config.mode == GateMode::LocalEstimate,
        first <= u64::MAX,
        forall|i: int|
            0 <= i < rest.len() ==> rest[i] < g.acquire(first).since + g.config.window,
    ensures
        g.proceeds(seq![first] + rest) <= g.config.capacity,
{
    let times = seq![first] + rest;
    assert(times[0] == first);
    assert(times.skip(1) =~= rest);
    lemma_acquire_keeps_wf(g, first);
    lemma_budget_within_window(g.acquire(first), rest);
}

/// Refill: once a full window has passed since the current one began, or
/// since the budget was observed, and no back-off is pending, the next call is
/// granted, whatever was left of the budget. Under the local estimate that
/// call opens a new window with a full budget less the one request.
pub proof fn lemma_refill(g: GateModel, now: nat)
    requires
        g.wf(),
        g.budget.retry_after == 0,
        now >= g.since + g.config.window,
    ensures
        g.decide(now) == GateDecision::Proceed,
        g.config.mode == GateMode::LocalEstimate ==> g.acquire(now).budget.remaining
            == g.config.capacity - 1 && g.acquire(now).since == now,
{
}

/// Server precedence: once a gate fed by the service was shown a back-off of
/// `r >= 1` seconds, it tells every caller to wait until those seconds have
/// passed, whatever number of remaining requests came with it, and the wait it
/// names reaches to the end of the back-off at least.
///
/// Stated for spans shorter than the longest wait that 64 bits can express.
pub proof fn lemma_back_off_is_kept(g: GateModel, seen: RateHeaders, now: nat, later: nat)
    requires
        g.wf(),
        g.config.mode == GateMode::ServerFed,
        seen.retry_after >= 1,
        now <= later <= now + seen.retry_after,
        later - now < u64::MAX,
    ensures
        g.observe(seen, now).decide(later) matches GateDecision::WaitFor(secs) && secs >= 1
            && (later - now) + secs >= seen.retry_after,
{
}

/// A gate fed by the service that was shown a report with nothing remaining
/// has a caller wait who asks at the second of the report.
pub proof fn lemma_nothing_remaining_shuts(g: GateModel, seen: RateHeaders, now: nat)
    requires
        g.wf(),
        g.config.mode == GateMode::ServerFed,
        seen.remaining == 0,
    ensures
        g.observe(seen, now).budget.remaining == 0,
        g.observe(seen, now).decide(now) is WaitFor,
{
}

/// Fail-safe on a malformed signal: where the field that reports the remaining
/// requests is absent or holds no number, a gate fed by the service records
/// that nothing remains, and a caller that asks at the second of the
/// observation has to wait.
pub proof fn lemma_unreadable_remaining_shuts(
    g: GateModel,
    fields: Map<Seq<char>, Seq<u8>>,
    now: nat,
)
    requires
        g.wf(),
        g.config.mode == GateMode::ServerFed,
        field(fields, REMAINING@) matches Some(bytes) ==> unsigned_value(bytes, u32::MAX as nat)
            is None,
    ensures
        rate_headers(fields).remaining == 0,
        g.observe(rate_headers(fields), now).budget.remaining == 0,
        g.observe(rate_headers(fields), now).decide(now) is WaitFor,
{
}

} // verus!
