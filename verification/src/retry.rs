//! The retrying connector: a bounded-or-unbounded exponential-backoff policy
//! and the state machine that decides, after each connect attempt, whether to
//! stop, give up, or wait and try again.

use vstd::prelude::*;

verus! {

/// Backoff policy for connection attempts: the first retry waits the base
/// delay, each further retry doubles it, capped at the maximum; an optional
/// bound on the total number of attempts.
pub struct RetryPolicy {
    pub base_delay_ms: u64,
    pub max_delay_ms: u64,
    pub max_attempts: Option<u64>,
}

impl RetryPolicy {
    /// A usable policy: a positive base no larger than the cap, a cap small
    /// enough that doubling a delay never overflows, and a bound, if one is
    /// set, that allows at least one attempt.
    pub open spec fn wf(&self) -> bool {
        &&& 0 < self.base_delay_ms <= self.max_delay_ms <= 0x4000_0000_0000_0000u64
        &&& (self.max_attempts is Some ==> self.max_attempts.unwrap() > 0)
    }

    pub fn new(base_delay_ms: u64, max_delay_ms: u64, max_attempts: Option<u64>) -> (p:
        RetryPolicy)
        requires
            0 < base_delay_ms <= max_delay_ms <= 0x4000_0000_0000_0000u64,
            max_attempts is Some ==> max_attempts.unwrap() > 0,
        ensures
            p.wf(),
            p.base_delay_ms == base_delay_ms,
            p.max_delay_ms == max_delay_ms,
            p.max_attempts == max_attempts,
    {
        RetryPolicy { base_delay_ms, max_delay_ms, max_attempts }
    }

    /// The policy the bridge runs with: one-second base delay, one-minute
    /// cap, and no bound on the number of attempts — every connect error is
    /// treated as retryable.
    pub fn unbounded_default() -> (p: RetryPolicy)
        ensures
            p.wf(),
            p.base_delay_ms == 1000,
            p.max_delay_ms == 60000,
            p.max_attempts is None,
    {
        RetryPolicy { base_delay_ms: 1000, max_delay_ms: 60000, max_attempts: None }
    }
}

/// The delay, in milliseconds, waited after the `(k+1)`-th failed attempt:
/// the base delay doubled `k` times, capped at the policy's maximum.
pub open spec fn spec_delay(p: RetryPolicy, k: nat) -> nat
    decreases k,
{
    if k == 0 {
        p.base_delay_ms as nat
    } else {
        let doubled = 2 * spec_delay(p, (k - 1) as nat);
        if doubled > p.max_delay_ms as nat {
            p.max_delay_ms as nat
        } else {
            doubled
        }
    }
}

/// Every backoff delay lies between the base and the cap.
pub proof fn lemma_delay_bounds(p: RetryPolicy, k: nat)
    requires
        p.wf(),
    ensures
        p.base_delay_ms <= spec_delay(p, k) <= p.max_delay_ms,
    decreases k,
{
    if k > 0 {
        lemma_delay_bounds(p, (k - 1) as nat);
    }
}

/// Law: backoff delays never decrease from one retry to the next.
pub proof fn lemma_delay_step_nondecreasing(p: RetryPolicy, k: nat)
    requires
        p.wf(),
    ensures
        spec_delay(p, k) <= spec_delay(p, k + 1),
{
    lemma_delay_bounds(p, k);
}

/// Law: the sequence of backoff delays is non-decreasing.
pub proof fn lemma_delay_monotonic(p: RetryPolicy, i: nat, j: nat)
    requires
        p.wf(),
        i <= j,
    ensures
        spec_delay(p, i) <= spec_delay(p, j),
    decreases j - i,
{
    if i < j {
        lemma_delay_monotonic(p, i, (j - 1) as nat);
        lemma_delay_step_nondecreasing(p, (j - 1) as nat);
    }
}

/// The outcome of one connect attempt, as the connector sees it.
#[derive(Clone, Copy, PartialEq, Eq, Structural, Debug)]
pub enum ConnectEvent {
    Succeeded,
    Failed,
}

/// What the connector does after an attempt: stop connected, wait the given
/// delay and try again, or surface the error because retries are exhausted.
#[derive(Clone, Copy, PartialEq, Eq, Structural, Debug)]
pub enum RetryAction {
    Done,
    Wait { delay_ms: u64 },
    GiveUp,
}

/// Whether a policy allows no further attempt after `failures` failed ones.
pub open spec fn retries_exhausted(p: RetryPolicy, failures: u64) -> bool {
    match p.max_attempts {
        Some(m) => failures >= m,
        None => false,
    }
}

/// Transient state of one connect-attempt sequence: how many attempts have
/// failed, and the delay the next failure will incur.
pub struct RetryState {
    pub failures: u64,
    pub next_delay_ms: u64,
}

impl RetryState {
    /// The state tracks the policy: the pending delay is the one the backoff
    /// schedule assigns to the next failure.
    pub open spec fn wf(&self, p: RetryPolicy) -> bool {
        &&& p.wf()
        &&& self.next_delay_ms == spec_delay(p, self.failures as nat)
    }

    pub fn new(p: &RetryPolicy) -> (s: RetryState)
        requires
            p.wf(),
        ensures
            s.wf(*p),
            s.failures == 0,
    {
        RetryState { failures: 0, next_delay_ms: p.base_delay_ms }
    }

    /// One step of the connector: fold in the outcome of the attempt just
    /// made and decide what to do next. Success ends the sequence; a failure
    /// waits the scheduled backoff delay, unless the policy's attempt bound
    /// is reached, in which case the error is surfaced to the caller.
    pub fn step(&mut self, p: &RetryPolicy, ev: ConnectEvent) -> (a: RetryAction)
        requires
            old(self).wf(*p),
            old(self).failures < u64::MAX,
        ensures
            final(self).wf(*p),
            ev is Succeeded ==> a is Done && *final(self) == *old(self),
            ev is Failed ==> final(self).failures == old(self).failures + 1,
            ev is Failed && retries_exhausted(*p, (old(self).failures + 1) as u64) ==> a
                is GiveUp,
            ev is Failed && !retries_exhausted(*p, (old(self).failures + 1) as u64) ==> a == (
            RetryAction::Wait { delay_ms: old(self).next_delay_ms }),
    {
        match ev {
            ConnectEvent::Succeeded => RetryAction::Done,
            ConnectEvent::Failed => {
                proof {
                    lemma_delay_bounds(*p, self.failures as nat);
                }
                let delay = self.next_delay_ms;
                let doubled = 2 * delay;
                self.next_delay_ms = if doubled > p.max_delay_ms {
                    p.max_delay_ms
                } else {
                    doubled
                };
                self.failures = self.failures + 1;
                let exhausted = match p.max_attempts {
                    Some(m) => self.failures >= m,
                    None => false,
                };
                if exhausted {
                    RetryAction::GiveUp
                } else {
                    RetryAction::Wait { delay_ms: delay }
                }
            },
        }
    }
}

/// No attempt among the first `k` succeeds.
pub open spec fn no_success_before(s: Seq<bool>, k: int) -> bool {
    forall|i: int| 0 <= i < k ==> !s[i]
}

/// What a whole connect-attempt sequence did: whether it ended connected,
/// how many attempts it made, and the delay waited after each failure.
pub struct RetrySession {
    pub connected: bool,
    pub attempts: u64,
    pub delays_ms: Vec<u64>,
}

/// Runs the retrying connector against a simulated connect operation:
/// attempt `i` succeeds exactly when `outcomes[i]` is true. The connector
/// stops at the first success, or when the policy's attempt bound is
/// reached; with no bound it consumes every simulated outcome.
///
/// Law: for a sequence of failures followed by one success within the
/// policy's bound, the connector makes exactly one attempt per failure plus
/// the final successful one, waits the scheduled backoff delay after each
/// failure, and those delays never decrease.
pub fn run_retry(p: &RetryPolicy, outcomes: &Vec<bool>) -> (r: RetrySession)
    requires
        p.wf(),
        outcomes@.len() < u64::MAX,
    ensures
        r.connected <==> (exists|f: int|
            0 <= f < outcomes@.len() && #[trigger] outcomes@[f] && no_success_before(outcomes@, f)
                && !retries_exhausted(*p, f as u64)),
        r.connected ==> ({
            let f = r.attempts - 1;
            &&& 0 < r.attempts <= outcomes@.len()
            &&& outcomes@[f]
            &&& no_success_before(outcomes@, f)
            &&& r.delays_ms@.len() == f
        }),
        !r.connected ==> ({
            &&& no_success_before(outcomes@, r.attempts as int)
            &&& (match p.max_attempts {
                Some(m) => r.attempts == if m <= outcomes@.len() {
                    m as int
                } else {
                    outcomes@.len() as int
                },
                None => r.attempts == outcomes@.len(),
            })
        }),
        forall|i: int|
            0 <= i < r.delays_ms@.len() ==> #[trigger] r.delays_ms@[i] == spec_delay(*p, i as nat),
        forall|i: int, j: int|
            0 <= i <= j < r.delays_ms@.len() ==> #[trigger] r.delays_ms@[i] <= #[trigger] r.delays_ms@[j],
{
    let ghost s = outcomes@;
    let mut st = RetryState::new(p);
    let mut delays: Vec<u64> = Vec::new();
    let mut i: usize = 0;
    let mut connected = false;
    let mut gave_up = false;
    while i < outcomes.len() && !connected && !gave_up
        invariant
            p.wf(),
            st.wf(*p),
            s == outcomes@,
            s.len() < u64::MAX,
            i <= s.len(),
            !(connected && gave_up),
            connected ==> i >= 1 && s[i - 1] && no_success_before(s, i - 1)
                && !retries_exhausted(*p, (i - 1) as u64),
            !connected ==> no_success_before(s, i as int),
            !connected && !gave_up ==> st.failures == i && !retries_exhausted(*p, i as u64),
            gave_up ==> p.max_attempts is Some && i == p.max_attempts.unwrap() && i <= s.len(),
            delays@.len() == if connected {
                i - 1
            } else if gave_up {
                i - 1
            } else {
                i as int
            },
            forall|k: int| 0 <= k < delays@.len() ==> #[trigger] delays@[k] == spec_delay(*p, k as nat),
        decreases s.len() - i,
    {
        let ev = if outcomes[i] {
            ConnectEvent::Succeeded
        } else {
            ConnectEvent::Failed
        };
        let a = st.step(p, ev);
        i = i + 1;
        match a {
            RetryAction::Done => {
                connected = true;
            },
            RetryAction::GiveUp => {
                gave_up = true;
            },
            RetryAction::Wait { delay_ms } => {
                delays.push(delay_ms);
            },
        }
    }
    proof {
        assert forall|a: int, b: int| 0 <= a <= b < delays@.len() implies #[trigger] delays@[a]
            <= #[trigger] delays@[b] by {
            lemma_delay_monotonic(*p, a as nat, b as nat);
        }
        if connected {
            assert(outcomes@[i - 1] && no_success_before(outcomes@, i - 1) && !retries_exhausted(
                *p,
                (i - 1) as u64,
            ));
        }
        if !connected {
            assert forall|f: int|
                0 <= f < s.len() && #[trigger] s[f] && no_success_before(s, f) implies
                retries_exhausted(*p, f as u64) by {
                if !retries_exhausted(*p, f as u64) {
                    assert(f >= i);
                    if gave_up {
                        assert(retries_exhausted(*p, i as u64));
                        assert(retries_exhausted(*p, f as u64));
                    }
                }
            }
        }
    }
    RetrySession { connected, attempts: i as u64, delays_ms: delays }
}

} // verus!
