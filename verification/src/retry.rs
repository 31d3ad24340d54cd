//! What becomes of an envelope that a handler failed to process.
//!
//! The number of failures travels in the envelope itself, so the decision
//! needs no memory: it is a function of the policy and the envelope.

use vstd::prelude::*;
use vstd::arithmetic::power2::{lemma2_to64, lemma_pow2_unfold, pow2};
use crate::config::RetryConfig;
use crate::models::{EnvelopeView, EventEnvelope};

verus! {

/// The delay before a retried envelope may reach a handler again, in
/// milliseconds: the base delay doubled once per failed attempt, and no more
/// than the ceiling.
pub open spec fn backoff_delay(base_ms: nat, max_ms: nat, attempt: nat) -> nat {
    if base_ms * pow2(attempt) <= max_ms {
        base_ms * pow2(attempt)
    } else {
        max_ms
    }
}

/// Where a failed envelope goes next.
#[derive(Debug, PartialEq, Eq)]
pub enum RetryDecision {
    /// Publish `envelope` to the retry topic, and keep it from handlers for
    /// `backoff_ms` milliseconds.
    Retry { envelope: EventEnvelope, backoff_ms: u64 },
    /// Publish `envelope` to the dead-letter topic, tagged with `reason`.
    /// Nothing replays it from there.
    DeadLetter { envelope: EventEnvelope, reason: String },
}

/// Mathematical content of a [`RetryDecision`].
pub enum RetryDecisionView {
    Retry { envelope: EnvelopeView, backoff_ms: u64 },
    DeadLetter { envelope: EnvelopeView, reason: Seq<char> },
}

impl Clone for RetryDecision {
    fn clone(&self) -> (copy: Self)
        ensures
            copy == *self,
    {
        match self {
            RetryDecision::Retry { envelope, backoff_ms } => RetryDecision::Retry {
                envelope: envelope.clone(),
                backoff_ms: *backoff_ms,
            },
            RetryDecision::DeadLetter { envelope, reason } => RetryDecision::DeadLetter {
                envelope: envelope.clone(),
                reason: reason.clone(),
            },
        }
    }
}

impl View for RetryDecision {
    type V = RetryDecisionView;

    open spec fn view(&self) -> RetryDecisionView {
        match self {
            RetryDecision::Retry { envelope, backoff_ms } => RetryDecisionView::Retry {
                envelope: envelope@,
                backoff_ms: *backoff_ms,
            },
            RetryDecision::DeadLetter { envelope, reason } => RetryDecisionView::DeadLetter {
                envelope: envelope@,
                reason: reason@,
            },
        }
    }
}

/// The decision for `envelope`, whose processing failed for `reason`.
///
/// While failures are left, the envelope goes to the retry topic with one
/// more failure on record and the backoff of that count. Otherwise it goes
/// to the dead-letter topic as it is.
pub open spec fn decide(
    policy: RetryConfig,
    envelope: EnvelopeView,
    reason: Seq<char>,
) -> RetryDecisionView {
    if envelope.attempt_count < policy.max_retries {
        RetryDecisionView::Retry {
            envelope: EnvelopeView {
                attempt_count: (envelope.attempt_count + 1) as u32,
                ..envelope
            },
            backoff_ms: backoff_delay(
                policy.base_delay_ms as nat,
                policy.max_delay_ms as nat,
                (envelope.attempt_count + 1) as nat,
            ) as u64,
        }
    } else {
        RetryDecisionView::DeadLetter { envelope, reason }
    }
}

proof fn lemma_double(base: nat, attempt: nat)
    ensures
        base * pow2(attempt + 1) == 2 * (base * pow2(attempt)),
{
    lemma_pow2_unfold(attempt + 1);
    assert(base * (2 * pow2(attempt)) == 2 * (base * pow2(attempt))) by (nonlinear_arith);
}

proof fn lemma_grows(base: nat, from: nat, to: nat)
    requires
        from <= to,
    ensures
        base * pow2(from) <= base * pow2(to),
    decreases to - from,
{
    if from < to {
        lemma_grows(base, from, (to - 1) as nat);
        lemma_double(base, (to - 1) as nat);
    }
}

/// Decides between retry and dead-letter. It keeps no state of its own.
#[derive(Debug, Clone, Copy)]
pub struct RetryCoordinator {
    pub policy: RetryConfig,
}

impl RetryCoordinator {
    /// A coordinator that decides by `policy`.
    pub fn new(policy: RetryConfig) -> (coordinator: Self)
        ensures
            coordinator.policy == policy,
    {
        RetryCoordinator { policy }
    }

    /// The backoff after the given number of failed attempts.
    pub fn backoff_ms(&self, attempt: u32) -> (delay: u64)
        ensures
            delay == backoff_delay(
                self.policy.base_delay_ms as nat,
                self.policy.max_delay_ms as nat,
                attempt as nat,
            ),
    {
        let base: u64 = self.policy.base_delay_ms;
        let max: u64 = self.policy.max_delay_ms;
        proof {
            lemma_grows(base as nat, 0, attempt as nat);
            assert(pow2(0) == 1) by {
                lemma2_to64();
            }
            assert(base * 1 == base) by (nonlinear_arith);
        }
        if base == 0 {
            assert(0 * pow2(attempt as nat) == 0) by (nonlinear_arith);
            return 0;
        }
        if base > max {
            return max;
        }
        let mut delay: u64 = base;
        let mut doubled: u32 = 0;
        while doubled < attempt && delay <= max - delay
            invariant
                doubled <= attempt,
                0 < base,
                delay <= max,
                delay == base * pow2(doubled as nat),
            decreases attempt - doubled,
        {
            proof {
                lemma_double(base as nat, doubled as nat);
            }
            delay = delay + delay;
            doubled = doubled + 1;
        }
        if doubled < attempt {
            proof {
                lemma_double(base as nat, doubled as nat);
                lemma_grows(base as nat, (doubled + 1) as nat, attempt as nat);
            }
            max
        } else {
            delay
        }
    }

    /// Whether the envelope has used up its retries, so that no handler
    /// sees it again.
    pub fn is_exhausted(&self, envelope: &EventEnvelope) -> (exhausted: bool)
        ensures
            exhausted == (envelope@.attempt_count >= self.policy.max_retries),
    {
        envelope.attempt_count >= self.policy.max_retries
    }

    /// Decides where `envelope` goes after its processing failed for
    /// `reason`. The envelope handed in is left as it is: a retry is a copy
    /// with the count raised.
    pub fn on_failure(&self, envelope: &EventEnvelope, reason: String) -> (decision: RetryDecision)
        ensures
            decision@ == decide(self.policy, envelope@, reason@),
    {
        if envelope.attempt_count < self.policy.max_retries {
            let retried = envelope.next_attempt();
            let backoff_ms = self.backoff_ms(retried.attempt_count);
            RetryDecision::Retry { envelope: retried, backoff_ms }
        } else {
            RetryDecision::DeadLetter { envelope: envelope.clone(), reason }
        }
    }
}

/// An envelope that fails with retries left goes to the retry topic with
/// its count raised by one and everything else as it was; it does not go to
/// the dead-letter topic.
pub proof fn law_failure_below_limit_is_retried(
    policy: RetryConfig,
    envelope: EnvelopeView,
    reason: Seq<char>,
)
    requires
        envelope.attempt_count < policy.max_retries,
    ensures
        decide(policy, envelope, reason) is Retry,
        decide(policy, envelope, reason)->Retry_envelope == (EnvelopeView {
            attempt_count: (envelope.attempt_count + 1) as u32,
            ..envelope
        }),
        decide(policy, envelope, reason)->Retry_envelope.attempt_count
            == envelope.attempt_count + 1,
        decide(policy, envelope, reason)->Retry_envelope.attempt_count <= policy.max_retries,
{
}

/// An envelope that fails with its retries used up goes to the dead-letter
/// topic unchanged, with the reason of the failure; its count is not raised.
pub proof fn law_failure_at_limit_is_dead_lettered(
    policy: RetryConfig,
    envelope: EnvelopeView,
    reason: Seq<char>,
)
    requires
        envelope.attempt_count >= policy.max_retries,
    ensures
        decide(policy, envelope, reason) == (RetryDecisionView::DeadLetter { envelope, reason }),
{
}

/// The backoff never exceeds the ceiling, and never shrinks as failures
/// add up.
pub proof fn law_backoff_bounded_and_monotonic(base_ms: nat, max_ms: nat, earlier: nat, later: nat)
    requires
        earlier <= later,
    ensures
        backoff_delay(base_ms, max_ms, later) <= max_ms,
        backoff_delay(base_ms, max_ms, earlier) <= backoff_delay(base_ms, max_ms, later),
{
    lemma_grows(base_ms, earlier, later);
}

} // verus!
