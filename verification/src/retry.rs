//! Exponential backoff for outbound blockchain calls: up to `max_attempts`
//! tries, sleeping between them for a delay that starts at `base_delay_ms`,
//! doubles after every failure, and never exceeds `max_delay_ms`.
//!
//! The sleeping itself is the caller's: these types only decide, after each
//! failed attempt, whether to retry and for how long to wait first.

use vstd::prelude::*;

verus! {

/// A retry policy: attempt count and delay bounds, delays in milliseconds.
#[derive(Clone, Copy, Debug, PartialEq, Eq, Structural)]
pub struct RetryConfig {
    pub max_attempts: u32,
    pub base_delay_ms: u64,
    pub max_delay_ms: u64,
}

/// The delay slept after the `i`-th failed attempt (counting failures from
/// zero): the base delay first, then doubling, capped at the maximum.
pub open spec fn backoff_delay(cfg: RetryConfig, i: nat) -> int
    decreases i,
{
    if i == 0 {
        cfg.base_delay_ms as int
    } else {
        vstd::math::min(2 * backoff_delay(cfg, (i - 1) as nat), cfg.max_delay_ms as int)
    }
}

/// Once the base delay is within the cap, every backoff delay is: the sleep
/// before a retry never exceeds `max_delay_ms`.
pub proof fn lemma_backoff_delay_capped(cfg: RetryConfig, i: nat)
    requires
        cfg.base_delay_ms <= cfg.max_delay_ms,
    ensures
        backoff_delay(cfg, i) <= cfg.max_delay_ms,
    decreases i,
{
    if i > 0 {
        lemma_backoff_delay_capped(cfg, (i - 1) as nat);
    }
}

/// Backoff delays never decrease from one failure to the next.
pub proof fn lemma_backoff_delay_monotonic(cfg: RetryConfig, i: nat)
    requires
        cfg.base_delay_ms <= cfg.max_delay_ms,
        0 < cfg.base_delay_ms,
    ensures
        backoff_delay(cfg, i) <= backoff_delay(cfg, i + 1),
        0 < backoff_delay(cfg, i),
    decreases i,
{
    if i > 0 {
        lemma_backoff_delay_monotonic(cfg, (i - 1) as nat);
        lemma_backoff_delay_capped(cfg, (i - 1) as nat);
        lemma_backoff_delay_capped(cfg, i);
    }
}

/// What to do after a failed attempt: wait and try again, or give up and
/// surface the last failure verbatim.
#[derive(Clone, Copy, Debug, PartialEq, Eq, Structural)]
pub enum RetryDecision {
    RetryAfter(u64),
    GiveUp,
}

/// The running state of one retried operation.
#[derive(Clone, Copy, Debug, PartialEq, Eq, Structural)]
pub struct RetryState {
    pub failures: u32,
    pub next_delay_ms: u64,
}

impl RetryState {
    /// The state tracks the policy: the stored delay is the one the backoff
    /// schedule prescribes for the next failure.
    pub open spec fn wf(self, cfg: RetryConfig) -> bool {
        &&& self.failures <= cfg.max_attempts
        &&& self.next_delay_ms as int == backoff_delay(cfg, self.failures as nat)
    }

    /// A fresh state: no failures yet, the base delay up next.
    pub fn start(cfg: &RetryConfig) -> (r: RetryState)
        ensures
            r.wf(*cfg),
            r.failures == 0,
    {
        RetryState { failures: 0, next_delay_ms: cfg.base_delay_ms }
    }

    /// Records one failed attempt. While attempts remain, the decision is to
    /// retry after exactly the delay the backoff schedule prescribes for this
    /// failure; once `max_attempts` attempts have failed, it is to give up.
    pub fn on_failure(&mut self, cfg: &RetryConfig) -> (r: RetryDecision)
        requires
            old(self).wf(*cfg),
            old(self).failures < cfg.max_attempts,
        ensures
            final(self).wf(*cfg),
            final(self).failures == old(self).failures + 1,
            final(self).failures == cfg.max_attempts ==> r == RetryDecision::GiveUp,
            final(self).failures < cfg.max_attempts ==> r == RetryDecision::RetryAfter(
                old(self).next_delay_ms,
            ) && old(self).next_delay_ms as int == backoff_delay(*cfg, old(self).failures as nat),
    {
        let delay = self.next_delay_ms;
        self.failures += 1;
        let doubled = if self.next_delay_ms <= u64::MAX / 2 {
            2 * self.next_delay_ms
        } else {
            u64::MAX
        };
        self.next_delay_ms = if doubled < cfg.max_delay_ms {
            doubled
        } else {
            cfg.max_delay_ms
        };
        if self.failures >= cfg.max_attempts {
            RetryDecision::GiveUp
        } else {
            RetryDecision::RetryAfter(delay)
        }
    }
}

/// The whole sleep schedule of a policy: the delay slept after each failed
/// attempt that still leaves attempts to try.
pub fn backoff_schedule(cfg: &RetryConfig) -> (r: Vec<u64>)
    ensures
        r@.len() == if cfg.max_attempts == 0 {
            0int
        } else {
            cfg.max_attempts - 1
        },
        forall|i: int| 0 <= i < r@.len() ==> r@[i] as int == backoff_delay(*cfg, i as nat),
{
    let mut out: Vec<u64> = Vec::new();
    if cfg.max_attempts == 0 {
        return out;
    }
    let mut state = RetryState::start(cfg);
    let n = cfg.max_attempts - 1;
    while out.len() < n as usize
        invariant
            state.wf(*cfg),
            out@.len() == state.failures,
            state.failures <= n,
            n < cfg.max_attempts || n == cfg.max_attempts - 1,
            n == cfg.max_attempts - 1,
            forall|i: int| 0 <= i < out@.len() ==> out@[i] as int == backoff_delay(*cfg, i as nat),
        decreases n - state.failures,
    {
        let d = state.next_delay_ms;
        state.on_failure(cfg);
        out.push(d);
    }
    out
}

} // verus!
