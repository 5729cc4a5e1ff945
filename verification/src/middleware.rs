//! The rate budget that the upstream service reports, and the rule that
//! decides from it whether a request may go out.

use crate::headers::{header_fields, rate_headers, RateHeaders};
use crate::prelude::duration_from_secs;
use core::time::Duration;
use reqwest::header::{HeaderMap, HeaderValue};
use vstd::prelude::*;

verus! {

/// Base URL of the API; every endpoint path is appended to it.
pub const BASE_URL: &'static str = "https://api.helldivers2.dev";

/// Requests per window that the service is assumed to grant until it says
/// otherwise.
pub const DEFAULT_LIMIT: u32 = 5;

/// The rate budget as a mathematical value.
pub struct RateBudget {
    /// Requests allowed per window, as last observed or configured.
    pub limit: nat,
    /// Requests still permitted in the current window.
    pub remaining: nat,
    /// Seconds that the service asked to wait; zero means that it asked for
    /// no back-off.
    pub retry_after: nat,
}

impl RateBudget {
    /// Whether a request is allowed: some budget remains and the service asked
    /// for no back-off. A back-off wins over any remaining budget.
    pub open spec fn allows(self) -> bool {
        self.remaining > 0 && self.retry_after < 1
    }

    /// Seconds to wait once the budget does not allow a request: the back-off
    /// and one second more, as far as 64 bits hold it. Never less than one.
    pub open spec fn wait(self) -> nat {
        if self.retry_after < u64::MAX {
            self.retry_after + 1
        } else {
            u64::MAX as nat
        }
    }

    /// For how many seconds from its observation the budget keeps a caller
    /// waiting: none where it allows a request, else [`RateBudget::wait`].
    pub open spec fn shut_for(self) -> nat {
        if self.allows() {
            0
        } else {
            self.wait()
        }
    }

    /// Seconds that a caller still has to wait once `elapsed` seconds have
    /// passed since the budget was observed. Zero means that a request may go
    /// out.
    pub open spec fn wait_left(self, elapsed: nat) -> nat {
        if elapsed >= self.shut_for() {
            0
        } else {
            (self.shut_for() - elapsed) as nat
        }
    }

    /// The budget that a response reported.
    pub open spec fn observed(seen: RateHeaders) -> RateBudget {
        RateBudget {
            limit: seen.limit as nat,
            remaining: seen.remaining as nat,
            retry_after: seen.retry_after as nat,
        }
    }
}

/// The rate budget of the single upstream service.
pub struct RateLimit {
    /// Defines the request limit.
    x_limit: u32,
    /// How many requests are still remaining.
    x_remaining: u32,
    /// Retry delay in seconds after the service signalled exhaustion. The
    /// value `0` stands for no delay.
    retry_after: u64,
}

impl View for RateLimit {
    type V = RateBudget;

    closed spec fn view(&self) -> RateBudget {
        RateBudget {
            limit: self.x_limit as nat,
            remaining: self.x_remaining as nat,
            retry_after: self.retry_after as nat,
        }
    }
}

impl RateLimit {
    /// A budget with the given content.
    pub fn new(limit: u32, remaining: u32, retry_after: u64) -> (r: RateLimit)
        ensures
            r@ == (RateBudget {
                limit: limit as nat,
                remaining: remaining as nat,
                retry_after: retry_after as nat,
            }),
    {
        RateLimit { x_limit: limit, x_remaining: remaining, retry_after }
    }

    /// Requests allowed per window.
    pub fn limit(&self) -> (r: u32)
        ensures
            r == self@.limit,
    {
        self.x_limit
    }

    /// Requests still permitted in the current window.
    pub fn remaining(&self) -> (r: u32)
        ensures
            r == self@.remaining,
    {
        self.x_remaining
    }

    /// Seconds that the service asked to wait; zero for no back-off.
    pub fn retry_after(&self) -> (r: u64)
        ensures
            r == self@.retry_after,
    {
        self.retry_after
    }

    /// Seconds to wait while the budget does not allow a request.
    pub fn wait_secs(&self) -> (r: u64)
        ensures
            r == self@.wait(),
            r >= 1,
    {
        if self.retry_after < u64::MAX {
            self.retry_after + 1
        } else {
            u64::MAX
        }
    }

    /// Seconds that a caller still has to wait once `elapsed` seconds have
    /// passed since the budget was observed. Zero means that a request may go
    /// out.
    pub fn wait_after(&self, elapsed: u64) -> (r: u64)
        ensures
            r == self@.wait_left(elapsed as nat),
    {
        let shut_for = if self.allowed() {
            0
        } else {
            self.wait_secs()
        };
        if elapsed >= shut_for {
            0
        } else {
            shut_for - elapsed
        }
    }

    /// Overwrites the budget with what a response reported. Nothing of the
    /// earlier budget is kept.
    pub fn set(&mut self, seen: RateHeaders)
        ensures
            final(self)@ == RateBudget::observed(seen),
    {
        self.x_limit = seen.limit;
        self.x_remaining = seen.remaining;
        self.retry_after = seen.retry_after;
    }

    /// Updates the rate-limit information using the latest response headers.
    /// Nothing of the earlier budget is kept.
    pub fn update(&mut self, headers: &HeaderMap<HeaderValue>)
        ensures
            final(self)@ == RateBudget::observed(rate_headers(header_fields(*headers))),
    {
        self.set(RateHeaders::read(headers));
    }

    /// Returns whether a request is allowed.
    pub fn allowed(&self) -> (r: bool)
        ensures
            r == self@.allows(),
    {
        self.x_remaining > 0 && self.retry_after < 1
    }

    /// Returns `Ok` if a request is allowed. Otherwise returns the amount of
    /// time to wait until retrying. This is the answer at the moment the
    /// budget was observed; [`RateLimit::wait_after`] gives it for any later
    /// moment.
    pub fn try_wait(&self) -> (r: Result<(), Duration>)
        ensures
            r == (if self@.allows() {
                Ok::<(), Duration>(())
            } else {
                Err::<(), Duration>(duration_from_secs(self@.wait() as u64))
            }),
            r is Ok <==> self@.wait_left(0) == 0,
            r matches Err(wait) ==> wait == duration_from_secs(self@.wait_left(0) as u64),
    {
        if self.allowed() {
            Ok(())
        } else {
            Err(Duration::from_secs(self.wait_secs()))
        }
    }
}

impl Default for RateLimit {
    /// The budget before any response was seen: the default limit, nothing
    /// remaining, no back-off.
    fn default() -> (r: RateLimit)
        ensures
            r@ == (RateBudget { limit: DEFAULT_LIMIT as nat, remaining: 0, retry_after: 0 }),
    {
        RateLimit { x_limit: DEFAULT_LIMIT, x_remaining: 0, retry_after: 0 }
    }
}

/// Refill of a budget fed by the service: where the service asked for no
/// back-off, a caller that has waited one second or more since the budget
/// was observed may send its request, whatever remained of the budget.
pub proof fn lemma_budget_reopens(budget: RateBudget, elapsed: nat)
    requires
        budget.retry_after == 0,
        elapsed >= 1,
    ensures
        budget.wait_left(elapsed) == 0,
{
}

/// A back-off runs out: a caller that has waited for all of
/// [`RateBudget::wait`] since the budget was observed may send its request.
pub proof fn lemma_back_off_runs_out(budget: RateBudget, elapsed: nat)
    requires
        elapsed >= budget.wait(),
    ensures
        budget.wait_left(elapsed) == 0,
{
}

} // verus!
