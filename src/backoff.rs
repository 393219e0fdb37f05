//! Reconnect delays: start at the minimum, double on each consecutive
//! failure up to the maximum, start over after a success.

use vstd::prelude::*;
use vstd::arithmetic::power::pow;

verus! {

/// First delay after a failure, in milliseconds.
pub const BACKOFF_MIN_MS: u64 = 100;

/// Largest delay, in milliseconds.
pub const BACKOFF_MAX_MS: u64 = 10000;

/// Delay that follows `failures` consecutive failures before it.
pub open spec fn backoff_delay(failures: nat) -> nat
    decreases failures,
{
    if failures == 0 {
        BACKOFF_MIN_MS as nat
    } else {
        let d = 2 * backoff_delay((failures - 1) as nat);
        if d > BACKOFF_MAX_MS {
            BACKOFF_MAX_MS as nat
        } else {
            d
        }
    }
}

pub proof fn lemma_backoff_bounds(failures: nat)
    ensures
        BACKOFF_MIN_MS <= backoff_delay(failures) <= BACKOFF_MAX_MS,
    decreases failures,
{
    if failures > 0 {
        lemma_backoff_bounds((failures - 1) as nat);
    }
}

/// The delays are 100, 200, 400, ... milliseconds, never above 10000: after
/// `failures` consecutive failures the delay is the smaller of
/// `100 * 2^failures` and `10000`.
pub proof fn lemma_backoff_doubles(failures: nat)
    ensures
        backoff_delay(failures) == if 100 * pow(2, failures) > 10000 {
            10000
        } else {
            100 * pow(2, failures)
        },
    decreases failures,
{
    reveal(pow);
    if failures > 0 {
        lemma_backoff_doubles((failures - 1) as nat);
        vstd::arithmetic::power::lemma_pow_positive(2, (failures - 1) as nat);
        assert(pow(2, failures) == 2 * pow(2, (failures - 1) as nat));
    }
}

/// Backoff state of one connection.
pub struct Backoff {
    delay_ms: u64,
    failures: Ghost<nat>,
}

impl Backoff {
    /// Consecutive failures since the last success.
    pub closed spec fn failures(&self) -> nat {
        self.failures@
    }

    pub closed spec fn wf(&self) -> bool {
        self.delay_ms == backoff_delay(self.failures@)
    }

    pub fn new() -> (r: Backoff)
        ensures
            r.wf(),
            r.failures() == 0,
    {
        Backoff { delay_ms: BACKOFF_MIN_MS, failures: Ghost(0) }
    }

    /// Delay that the next failure will bring.
    pub fn next_delay(&self) -> (r: u64)
        requires
            self.wf(),
        ensures
            r == backoff_delay(self.failures()),
    {
        self.delay_ms
    }

    /// Counts a failure and gives the delay before the next attempt.
    pub fn on_failure(&mut self) -> (r: u64)
        requires
            old(self).wf(),
        ensures
            final(self).wf(),
            r == backoff_delay(old(self).failures()),
            final(self).failures() == old(self).failures() + 1,
    {
        proof {
            lemma_backoff_bounds(self.failures@);
        }
        let r = self.delay_ms;
        self.delay_ms = if r > BACKOFF_MAX_MS / 2 {
            BACKOFF_MAX_MS
        } else {
            2 * r
        };
        self.failures = Ghost(self.failures@ + 1);
        r
    }

    /// Counts a success: the next failure waits the minimum again.
    pub fn on_success(&mut self)
        requires
            old(self).wf(),
        ensures
            final(self).wf(),
            final(self).failures() == 0,
    {
        self.delay_ms = BACKOFF_MIN_MS;
        self.failures = Ghost(0);
    }
}

} // verus!
