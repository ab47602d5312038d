//! Reconnection delay policy: the delay doubles after every failed attempt,
//! up to a ceiling, and falls back to the base delay after a success.
use vstd::prelude::*;

verus! {

/// Delays of a [`ReconnectPolicy`], in milliseconds.
pub ghost struct PolicyModel {
    pub current: nat,
    pub base: nat,
    pub max: nat,
}

/// Lesser of two naturals.
pub open spec fn min_nat(a: nat, b: nat) -> nat {
    if a <= b {
        a
    } else {
        b
    }
}

/// `base * 2^n`.
pub open spec fn doubled(base: nat, n: nat) -> nat
    decreases n,
{
    if n == 0 {
        base
    } else {
        2 * doubled(base, (n - 1) as nat)
    }
}

/// The policy after one failed attempt.
pub open spec fn failure_step(p: PolicyModel) -> PolicyModel {
    PolicyModel { current: min_nat(2 * p.current, p.max), ..p }
}

/// The policy after `n` failed attempts in a row.
pub open spec fn after_failures(p: PolicyModel, n: nat) -> PolicyModel
    decreases n,
{
    if n == 0 {
        p
    } else {
        failure_step(after_failures(p, (n - 1) as nat))
    }
}

/// Delay before the next reconnection attempt.
pub struct ReconnectPolicy {
    current_delay_ms: u64,
    base_delay_ms: u64,
    max_delay_ms: u64,
}

impl View for ReconnectPolicy {
    type V = PolicyModel;

    closed spec fn view(&self) -> PolicyModel {
        PolicyModel {
            current: self.current_delay_ms as nat,
            base: self.base_delay_ms as nat,
            max: self.max_delay_ms as nat,
        }
    }
}

impl ReconnectPolicy {
    /// A policy that starts at `base_delay_ms` and never waits longer than
    /// `max_delay_ms` after a failure.
    pub fn new(base_delay_ms: u64, max_delay_ms: u64) -> (r: ReconnectPolicy)
        ensures
            r@ == (PolicyModel { current: base_delay_ms as nat, base: base_delay_ms as nat, max: max_delay_ms as nat }),
    {
        ReconnectPolicy { current_delay_ms: base_delay_ms, base_delay_ms, max_delay_ms }
    }

    /// The delay to wait before the next attempt.
    pub fn current_delay_ms(&self) -> (r: u64)
        ensures
            r as nat == self@.current,
    {
        self.current_delay_ms
    }

    /// A connection succeeded: the delay goes back to the base.
    pub fn on_success(&mut self)
        ensures
            final(self)@ == (PolicyModel { current: old(self)@.base, ..old(self)@ }),
    {
        self.current_delay_ms = self.base_delay_ms;
    }

    /// An attempt failed: the delay doubles, clamped to the maximum. Returns
    /// the new delay.
    pub fn on_failure(&mut self) -> (r: u64)
        ensures
            final(self)@ == failure_step(old(self)@),
            r as nat == final(self)@.current,
    {
        if self.current_delay_ms >= self.max_delay_ms
            || self.current_delay_ms > self.max_delay_ms - self.current_delay_ms {
            self.current_delay_ms = self.max_delay_ms;
        } else {
            self.current_delay_ms = self.current_delay_ms * 2;
        }
        self.current_delay_ms
    }
}

/// Starting from the base delay, the delay after `n` failures in a row is
/// `base * 2^n`, or the maximum once that is exceeded.
pub proof fn lemma_backoff_progression(base: nat, max: nat, n: nat)
    requires
        base <= max,
    ensures
        after_failures(PolicyModel { current: base, base, max }, n).current == min_nat(
            doubled(base, n),
            max,
        ),
        after_failures(PolicyModel { current: base, base, max }, n).base == base,
        after_failures(PolicyModel { current: base, base, max }, n).max == max,
    decreases n,
{
    if n > 0 {
        lemma_backoff_progression(base, max, (n - 1) as nat);
        lemma_doubled_monotone(base, (n - 1) as nat);
    }
}

/// Doubling never shrinks the value.
proof fn lemma_doubled_monotone(base: nat, n: nat)
    ensures
        doubled(base, n) <= doubled(base, n + 1),
    decreases n,
{
}

} // verus!
