//! The retry engine: after each attempt, either finish with its outcome or
//! wait and try again when it was rate limited and retries are left.

use crate::client::PayjpClient;
use crate::error::{PayjpError, PayjpResult};
use vstd::prelude::*;

verus! {

/// Another attempt follows attempt number `attempt` (from zero): it was
/// rate limited and fewer than `max_retry` retries were made.
pub open spec fn retries_after(attempt: int, max_retry: int, rate_limited: bool) -> bool {
    rate_limited && attempt < max_retry
}

/// The outcome is the rate-limit error.
pub open spec fn is_rate_limited<T>(outcome: PayjpResult<T>) -> bool {
    outcome matches Err(PayjpError::RateLimit)
}

/// The attempt counter of one logical call.
#[derive(Debug, Clone, Copy, PartialEq, Eq, Structural)]
pub struct RetryState {
    /// Number of attempts made so far that were followed by a retry.
    pub attempt_count: u32,
}

/// What to do after an attempt.
#[derive(Debug)]
pub enum RetryStep<T> {
    /// The call is over, with this outcome.
    Done(PayjpResult<T>),
    /// Sleep this many milliseconds, then make the next attempt.
    Wait(u64),
}

impl RetryState {
    /// The state before the first attempt.
    pub fn new() -> (r: Self)
        ensures
            r.attempt_count == 0,
    {
        RetryState { attempt_count: 0 }
    }

    /// Decides what follows an attempt with the given outcome. Only a
    /// rate-limited attempt is retried, and at most `max_retry` times; the
    /// wait is the client's backoff delay for the current attempt.
    pub fn next_step<T>(&mut self, client: &PayjpClient, outcome: PayjpResult<T>) -> (r: RetryStep<T>)
        ensures
            retries_after(
                old(self).attempt_count as int,
                client.spec_max_retry() as int,
                is_rate_limited(outcome),
            ) ==> (r matches RetryStep::Wait(d) && client.spec_capped_delay(old(self).attempt_count) / 2
                <= d <= client.spec_capped_delay(old(self).attempt_count)
                && final(self).attempt_count == old(self).attempt_count + 1),
            !retries_after(
                old(self).attempt_count as int,
                client.spec_max_retry() as int,
                is_rate_limited(outcome),
            ) ==> r == RetryStep::Done(outcome) && *final(self) == *old(self),
    {
        let limited = match &outcome {
            Err(PayjpError::RateLimit) => true,
            _ => false,
        };
        if limited && self.attempt_count < client.max_retry() {
            let delay = client.calculate_retry_delay(self.attempt_count);
            self.attempt_count = self.attempt_count + 1;
            RetryStep::Wait(delay)
        } else {
            RetryStep::Done(outcome)
        }
    }
}

/// Which of the outcomes are the rate-limit error.
pub open spec fn limited_of<T>(outcomes: Seq<PayjpResult<T>>) -> Seq<bool> {
    outcomes.map_values(|o: PayjpResult<T>| is_rate_limited(o))
}

/// The number of attempts of one call whose attempts answer in turn with the
/// rate-limit error where `limited` holds, counting from attempt `from`.
pub open spec fn attempts_made(limited: Seq<bool>, max_retry: nat, from: nat) -> nat
    decreases limited.len() - from,
{
    if from < limited.len() && retries_after(from as int, max_retry as int, limited[from as int]) {
        attempts_made(limited, max_retry, from + 1)
    } else {
        from + 1
    }
}

proof fn lemma_attempts_from_bounds(limited: Seq<bool>, max_retry: nat, from: nat)
    ensures
        from + 1 <= attempts_made(limited, max_retry, from),
    decreases limited.len() - from,
{
    if from < limited.len() && retries_after(from as int, max_retry as int, limited[from as int]) {
        lemma_attempts_from_bounds(limited, max_retry, from + 1);
    }
}

proof fn lemma_attempts_limited_run(limited: Seq<bool>, max_retry: nat, from: nat)
    requires
        from <= max_retry,
        limited.len() >= max_retry + 1,
        forall|i: int| from <= i < max_retry ==> limited[i],
    ensures
        attempts_made(limited, max_retry, from) == max_retry + 1,
    decreases max_retry - from,
{
    if from < max_retry {
        lemma_attempts_limited_run(limited, max_retry, from + 1);
    }
}

/// A whole call driven by the retry engine.
#[derive(Debug)]
pub struct RetryRun<T> {
    /// The outcome the call ends with.
    pub result: PayjpResult<T>,
    /// The number of attempts made.
    pub attempts: usize,
    /// The waits between attempts, in milliseconds, in order.
    pub waits: Vec<u64>,
}

/// Drives the retry engine over the outcomes that the transport gives, in
/// turn, to the attempts of one call: each outcome goes to `next_step`,
/// attempts stop when it says the call is done.
pub fn run_attempts<T>(client: &PayjpClient, outcomes: Vec<PayjpResult<T>>) -> (r: RetryRun<T>)
    requires
        outcomes@.len() >= 1,
        attempts_made(limited_of(outcomes@), client.spec_max_retry() as nat, 0) <= outcomes@.len(),
    ensures
        r.attempts == attempts_made(limited_of(outcomes@), client.spec_max_retry() as nat, 0),
        r.result == outcomes@[r.attempts - 1],
        r.waits@.len() == r.attempts - 1,
        forall|k: int|
            0 <= k < r.waits@.len() ==> client.spec_capped_delay(k as u32) / 2 <= #[trigger] r.waits@[k]
                <= client.spec_capped_delay(k as u32),
{
    let ghost all = outcomes@;
    let ghost lim = limited_of(all);
    let ghost max = client.spec_max_retry() as nat;
    let n = outcomes.len();
    let mut rest = outcomes;
    let mut state = RetryState::new();
    let mut waits: Vec<u64> = Vec::new();
    let mut i: usize = 0;
    loop
        invariant
            all == outcomes@,
            lim == limited_of(all),
            max == client.spec_max_retry() as nat,
            all.len() >= 1,
            n == all.len(),
            lim.len() == all.len(),
            attempts_made(lim, max, 0) <= all.len(),
            i <= max,
            i < all.len(),
            rest@ == all.skip(i as int),
            state.attempt_count == i,
            attempts_made(lim, max, 0) == attempts_made(lim, max, i as nat),
            waits@.len() == i,
            forall|k: int|
                0 <= k < waits@.len() ==> client.spec_capped_delay(k as u32) / 2 <= #[trigger] waits@[k]
                    <= client.spec_capped_delay(k as u32),
        decreases all.len() - i,
    {
        let outcome = rest.remove(0);
        assert(outcome == all[i as int]);
        assert(lim[i as int] == is_rate_limited(all[i as int]));
        let ghost prev = waits@;
        let ghost o = outcome;
        match state.next_step(client, outcome) {
            RetryStep::Done(result) => {
                assert(!retries_after(i as int, max as int, lim[i as int]));
                assert(attempts_made(lim, max, i as nat) == i + 1);
                return RetryRun { result, attempts: i + 1, waits };
            },
            RetryStep::Wait(d) => {
                waits.push(d);
                assert(waits@ == prev.push(d));
                proof {
                    assert(retries_after(i as int, max as int, lim[i as int]));
                    assert(attempts_made(lim, max, i as nat) == attempts_made(lim, max, (i + 1) as nat));
                    lemma_attempts_from_bounds(lim, max, (i + 1) as nat);
                }
                i = i + 1;
                assert(rest@ =~= all.skip(i as int));
            },
        }
    }
}

/// When the first `max_retry` attempts of a call are rate limited and the
/// next one succeeds, the call makes `max_retry + 1` attempts, so
/// `max_retry` waits (see `run_attempts`), and ends with that success.
pub proof fn lemma_recovers_after_max_retry<T>(outcomes: Seq<PayjpResult<T>>, max_retry: nat)
    requires
        outcomes.len() == max_retry + 1,
        forall|i: int| 0 <= i < max_retry ==> is_rate_limited(#[trigger] outcomes[i]),
        outcomes[max_retry as int] is Ok,
    ensures
        attempts_made(limited_of(outcomes), max_retry, 0) == max_retry + 1,
        outcomes[attempts_made(limited_of(outcomes), max_retry, 0) - 1] is Ok,
{
    let lim = limited_of(outcomes);
    assert forall|i: int| 0 <= i < max_retry implies lim[i] by {
        assert(is_rate_limited(outcomes[i]));
    }
    lemma_attempts_limited_run(lim, max_retry, 0);
}

/// When every attempt of a call is rate limited, the call makes exactly
/// `max_retry + 1` attempts, so `max_retry` waits, and ends with the
/// rate-limit error.
pub proof fn lemma_gives_up_after_max_retry<T>(outcomes: Seq<PayjpResult<T>>, max_retry: nat)
    requires
        outcomes.len() >= max_retry + 1,
        forall|i: int| 0 <= i < outcomes.len() ==> is_rate_limited(#[trigger] outcomes[i]),
    ensures
        attempts_made(limited_of(outcomes), max_retry, 0) == max_retry + 1,
        outcomes[attempts_made(limited_of(outcomes), max_retry, 0) - 1] matches Err(
            PayjpError::RateLimit,
        ),
{
    let lim = limited_of(outcomes);
    assert forall|i: int| 0 <= i < max_retry implies lim[i] by {
        assert(is_rate_limited(outcomes[i]));
    }
    lemma_attempts_limited_run(lim, max_retry, 0);
    assert(is_rate_limited(outcomes[max_retry as int]));
}

/// An attempt whose outcome is not the rate-limit error (a success, an
/// authentication error, any other error) ends the call at once: one
/// attempt, no wait, and that outcome.
pub proof fn lemma_other_outcome_is_final<T>(outcomes: Seq<PayjpResult<T>>, max_retry: nat)
    requires
        outcomes.len() >= 1,
        !is_rate_limited(outcomes[0]),
    ensures
        attempts_made(limited_of(outcomes), max_retry, 0) == 1,
{
    assert(!limited_of(outcomes)[0]);
}

} // verus!
