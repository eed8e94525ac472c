//! Retry envelope: bounded retries with a fixed delay around one remote attempt.
//!
//! The host makes an attempt, reports its outcome to [`Retry::record`], and
//! follows the decision: return the response, wait and try again, or give up.
use vstd::prelude::*;

verus! {

/// How many times a failed attempt is retried by default.
pub const MAX_RETRIES: u32 = 3;

/// The fixed delay between attempts by default, in milliseconds.
pub const RETRY_DELAY_MS: u64 = 2000;

/// The retry budget and the delay between attempts.
#[derive(Clone, Copy, Debug, PartialEq, Eq, Structural)]
pub struct RetryPolicy {
    /// Retries after the first attempt (total attempts: one more).
    pub max_retries: u32,
    /// Fixed wait before each retry, in milliseconds.
    pub delay_ms: u64,
}

/// What one attempt came to.
#[derive(Clone, Debug, PartialEq, Eq)]
pub enum AttemptOutcome {
    /// A response arrived with this HTTP status.
    Status(u16),
    /// No response: timeout, connection or name failure, described by the text.
    Transport(String),
}

/// The terminal error once every attempt has failed.
#[derive(Clone, Debug, PartialEq, Eq)]
pub struct RetryError {
    /// Attempts made, the first one included.
    pub attempts: u32,
    /// The outcome of the last attempt.
    pub last: AttemptOutcome,
}

/// What to do after an attempt.
#[derive(Clone, Debug, PartialEq, Eq)]
pub enum RetryDecision {
    /// The response succeeded: hand it on, no further attempt.
    Accept,
    /// Wait `delay_ms`, then make retry number `attempt`.
    RetryAfter { attempt: u32, delay_ms: u64 },
    /// Stop with this error.
    GiveUp(RetryError),
}

/// Whether `status` is a success status (2xx).
pub open spec fn is_success_status(status: u16) -> bool {
    200 <= status <= 299
}

impl AttemptOutcome {
    pub open spec fn succeeds(&self) -> bool {
        match self {
            AttemptOutcome::Status(s) => is_success_status(*s),
            AttemptOutcome::Transport(_) => false,
        }
    }

    /// Whether this outcome ends the attempts with success.
    pub fn is_success(&self) -> (r: bool)
        ensures
            r == self.succeeds(),
    {
        match self {
            AttemptOutcome::Status(s) => 200 <= *s && *s <= 299,
            AttemptOutcome::Transport(_) => false,
        }
    }
}

impl RetryPolicy {
    pub open spec fn wf(&self) -> bool {
        self.max_retries < u32::MAX
    }

    /// Three retries, two seconds apart.
    pub fn standard() -> (r: RetryPolicy)
        ensures
            r.max_retries == MAX_RETRIES,
            r.delay_ms == RETRY_DELAY_MS,
            r.wf(),
    {
        RetryPolicy { max_retries: MAX_RETRIES, delay_ms: RETRY_DELAY_MS }
    }
}

/// The decision after an attempt with outcome `o`, when `done` attempts came before it.
pub open spec fn decide(p: RetryPolicy, done: nat, o: AttemptOutcome) -> RetryDecision {
    if o.succeeds() {
        RetryDecision::Accept
    } else if done < p.max_retries {
        RetryDecision::RetryAfter { attempt: (done + 1) as u32, delay_ms: p.delay_ms }
    } else {
        RetryDecision::GiveUp(RetryError { attempts: (done + 1) as u32, last: o })
    }
}

/// The decisions taken when the outcomes `outs` are reported in turn, from
/// `done` earlier attempts on, up to and including the first final one.
pub open spec fn decisions(p: RetryPolicy, done: nat, outs: Seq<AttemptOutcome>) -> Seq<
    RetryDecision,
>
    decreases outs.len(),
{
    if outs.len() == 0 {
        seq![]
    } else {
        let d = decide(p, done, outs[0]);
        if d is RetryAfter {
            seq![d] + decisions(p, done + 1, outs.drop_first())
        } else {
            seq![d]
        }
    }
}

/// The attempts of one remote call.
#[derive(Clone, Copy, Debug)]
pub struct Retry {
    pub policy: RetryPolicy,
    /// Attempts reported so far.
    pub attempts: u32,
}

impl Retry {
    /// Whether another attempt may still be reported.
    pub open spec fn wf(&self) -> bool {
        self.policy.wf() && self.attempts <= self.policy.max_retries
    }

    /// The attempts of a call not yet made.
    pub fn new(policy: RetryPolicy) -> (r: Retry)
        ensures
            r.policy == policy,
            r.attempts == 0,
    {
        Retry { policy, attempts: 0 }
    }

    /// Reports the outcome of the next attempt and returns what to do next.
    pub fn record(&mut self, outcome: AttemptOutcome) -> (d: RetryDecision)
        requires
            old(self).wf(),
        ensures
            d == decide(old(self).policy, old(self).attempts as nat, outcome),
            final(self).policy == old(self).policy,
            final(self).attempts == old(self).attempts + 1,
            d is RetryAfter ==> final(self).wf(),
    {
        let done = self.attempts;
        self.attempts = done + 1;
        if outcome.is_success() {
            RetryDecision::Accept
        } else if done < self.policy.max_retries {
            RetryDecision::RetryAfter { attempt: done + 1, delay_ms: self.policy.delay_ms }
        } else {
            RetryDecision::GiveUp(RetryError { attempts: done + 1, last: outcome })
        }
    }
}

proof fn lemma_until_success(p: RetryPolicy, done: nat, outs: Seq<AttemptOutcome>)
    requires
        p.wf(),
        outs.len() > 0,
        forall|i: int| 0 <= i < outs.len() - 1 ==> !(#[trigger] outs[i]).succeeds(),
        outs.last().succeeds(),
        done + outs.len() - 1 <= p.max_retries,
    ensures
        decisions(p, done, outs).len() == outs.len(),
        forall|i: int|
            0 <= i < outs.len() - 1 ==> #[trigger] decisions(p, done, outs)[i]
                == (RetryDecision::RetryAfter {
                attempt: (done + i + 1) as u32,
                delay_ms: p.delay_ms,
            }),
        decisions(p, done, outs).last() == RetryDecision::Accept,
    decreases outs.len(),
{
    if outs.len() > 1 {
        let rest = outs.drop_first();
        assert forall|i: int| 0 <= i < rest.len() - 1 implies !(#[trigger] rest[i]).succeeds() by {
            assert(rest[i] == outs[i + 1]);
        }
        lemma_until_success(p, done + 1, rest);
        assert forall|i: int| 0 <= i < outs.len() - 1 implies #[trigger] decisions(
            p,
            done,
            outs,
        )[i] == (RetryDecision::RetryAfter { attempt: (done + i + 1) as u32, delay_ms: p.delay_ms }) by {
            if i > 0 {
                assert(decisions(p, done, outs)[i] == decisions(p, done + 1, rest)[i - 1]);
            }
        }
    }
}

proof fn lemma_exhausted(p: RetryPolicy, done: nat, outs: Seq<AttemptOutcome>)
    requires
        p.wf(),
        outs.len() > 0,
        forall|i: int| 0 <= i < outs.len() ==> !(#[trigger] outs[i]).succeeds(),
        done + outs.len() == p.max_retries + 1,
    ensures
        decisions(p, done, outs).len() == outs.len(),
        forall|i: int|
            0 <= i < outs.len() - 1 ==> #[trigger] decisions(p, done, outs)[i]
                == (RetryDecision::RetryAfter {
                attempt: (done + i + 1) as u32,
                delay_ms: p.delay_ms,
            }),
        decisions(p, done, outs).last() == RetryDecision::GiveUp(
            RetryError { attempts: (p.max_retries + 1) as u32, last: outs.last() },
        ),
    decreases outs.len(),
{
    if outs.len() > 1 {
        let rest = outs.drop_first();
        assert forall|i: int| 0 <= i < rest.len() implies !(#[trigger] rest[i]).succeeds() by {
            assert(rest[i] == outs[i + 1]);
        }
        lemma_exhausted(p, done + 1, rest);
        assert forall|i: int| 0 <= i < outs.len() - 1 implies #[trigger] decisions(
            p,
            done,
            outs,
        )[i] == (RetryDecision::RetryAfter { attempt: (done + i + 1) as u32, delay_ms: p.delay_ms }) by {
            if i > 0 {
                assert(decisions(p, done, outs)[i] == decisions(p, done + 1, rest)[i - 1]);
            }
        }
    } else {
        assert(!outs[0].succeeds());
    }
}

/// A call whose first `k` attempts fail and whose next one succeeds, with
/// `k` within the retry budget, succeeds after exactly `k + 1` attempts,
/// retried `k` times, retry number `i + 1` announced after the `i`-th failure.
pub proof fn law_success_after_failures(p: RetryPolicy, outs: Seq<AttemptOutcome>)
    requires
        p.wf(),
        outs.len() > 0,
        forall|i: int| 0 <= i < outs.len() - 1 ==> !(#[trigger] outs[i]).succeeds(),
        outs.last().succeeds(),
        outs.len() - 1 <= p.max_retries,
    ensures
        decisions(p, 0, outs).len() == outs.len(),
        forall|i: int|
            0 <= i < outs.len() - 1 ==> #[trigger] decisions(p, 0, outs)[i]
                == (RetryDecision::RetryAfter { attempt: (i + 1) as u32, delay_ms: p.delay_ms }),
        decisions(p, 0, outs).last() == RetryDecision::Accept,
{
    lemma_until_success(p, 0, outs);
}

/// A call whose every attempt fails ends with a terminal error after exactly
/// one attempt more than the retry budget, carrying the last outcome.
pub proof fn law_gives_up_after_budget(p: RetryPolicy, outs: Seq<AttemptOutcome>)
    requires
        p.wf(),
        outs.len() == p.max_retries + 1,
        forall|i: int| 0 <= i < outs.len() ==> !(#[trigger] outs[i]).succeeds(),
    ensures
        decisions(p, 0, outs).len() == p.max_retries + 1,
        forall|i: int|
            0 <= i < outs.len() - 1 ==> (#[trigger] decisions(p, 0, outs)[i]) is RetryAfter,
        decisions(p, 0, outs).last() == RetryDecision::GiveUp(
            RetryError { attempts: (p.max_retries + 1) as u32, last: outs.last() },
        ),
{
    lemma_exhausted(p, 0, outs);
}

} // verus!
