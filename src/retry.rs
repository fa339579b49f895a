use vstd::prelude::*;

verus! {

/// The most retries made for one request after its first attempt.
pub const MAX_RETRIES: u32 = 3;

/// How one attempt of a request ended.
#[derive(PartialEq, Eq, Structural, Clone, Copy, Debug)]
pub enum Attempt {
    Success,
    /// A network error, a timeout, a server error or rate limiting.
    Transient,
    /// Any other failure: not worth another attempt.
    Fatal,
}

/// What to do after an attempt.
#[derive(PartialEq, Eq, Structural, Clone, Copy, Debug)]
pub enum RetryStep {
    /// The request succeeded.
    Finished,
    /// Try again after waiting this many milliseconds.
    RetryAfter { wait_ms: u64 },
    /// The request failed for good.
    GiveUp,
}

/// Where a request stands after a run of attempts.
#[derive(PartialEq, Eq, Structural, Clone, Copy, Debug)]
pub enum Verdict {
    Succeeded,
    Failed,
    /// Every attempt so far asked for another one.
    Pending,
}

/// The verdict on a request whose next attempts end as `attempts`, when
/// `past` retries were already made.
pub open spec fn resolve(past: nat, attempts: Seq<Attempt>) -> Verdict
    decreases attempts.len(),
{
    if attempts.len() == 0 {
        Verdict::Pending
    } else {
        match attempts[0] {
            Attempt::Success => Verdict::Succeeded,
            Attempt::Fatal => Verdict::Failed,
            Attempt::Transient => if past < MAX_RETRIES {
                resolve(past + 1, attempts.drop_first())
            } else {
                Verdict::Failed
            },
        }
    }
}

/// Relies on reqwest_retry's ExponentialBackoff built with
/// `build_with_max_retries(max_retries)`: its `should_retry` retries exactly
/// while fewer than `max_retries` retries were made, and names the instant to
/// retry at, turned here into a wait.
#[verifier::external_body]
fn backoff_wait_ms(max_retries: u32, n_past_retries: u32) -> (r: Option<u64>)
    ensures
        r is Some <==> n_past_retries < max_retries,
{
    let policy = reqwest_retry::policies::ExponentialBackoff::builder().build_with_max_retries(
        max_retries,
    );
    let now = std::time::SystemTime::now();
    match reqwest_retry::RetryPolicy::should_retry(&policy, now, n_past_retries) {
        reqwest_retry::RetryDecision::Retry { execute_after } => match execute_after.duration_since(
            now,
        ) {
            Ok(wait) => Some(wait.as_millis() as u64),
            Err(_) => Some(0),
        },
        reqwest_retry::RetryDecision::DoNotRetry => None,
    }
}

/// The retries made so far for one request.
pub struct RetryCounter {
    past_retries: u32,
}

impl RetryCounter {
    pub closed spec fn past(&self) -> nat {
        self.past_retries as nat
    }

    pub closed spec fn wf(&self) -> bool {
        self.past_retries <= MAX_RETRIES
    }

    /// A counter for a request not yet attempted.
    pub fn new() -> (r: RetryCounter)
        ensures
            r.wf(),
            r.past() == 0,
    {
        RetryCounter { past_retries: 0 }
    }

    /// The number of retries made so far.
    pub fn retries(&self) -> (r: u32)
        ensures
            r == self.past(),
    {
        self.past_retries
    }

    /// Decides what follows an attempt that ended as `outcome`.
    pub fn after_attempt(&mut self, outcome: Attempt) -> (r: RetryStep)
        requires
            old(self).wf(),
        ensures
            final(self).wf(),
            outcome == Attempt::Success ==> r == RetryStep::Finished && final(self).past() == old(
                self,
            ).past(),
            outcome == Attempt::Fatal ==> r == RetryStep::GiveUp && final(self).past() == old(
                self,
            ).past(),
            outcome == Attempt::Transient && old(self).past() < MAX_RETRIES ==> r is RetryAfter
                && final(self).past() == old(self).past() + 1,
            outcome == Attempt::Transient && old(self).past() >= MAX_RETRIES ==> r
                == RetryStep::GiveUp && final(self).past() == old(self).past(),
    {
        match outcome {
            Attempt::Success => RetryStep::Finished,
            Attempt::Fatal => RetryStep::GiveUp,
            Attempt::Transient => match backoff_wait_ms(MAX_RETRIES, self.past_retries) {
                Some(wait_ms) => {
                    self.past_retries = self.past_retries + 1;
                    RetryStep::RetryAfter { wait_ms }
                },
                None => RetryStep::GiveUp,
            },
        }
    }
}

/// The verdict on a fresh request whose attempts end, one after another, as
/// `attempts`: each attempt is asked for only while the last one called for a
/// retry.
pub fn resolve_attempts(attempts: &Vec<Attempt>) -> (r: Verdict)
    ensures
        r == resolve(0, attempts@),
{
    let mut counter = RetryCounter::new();
    let mut i: usize = 0;
    assert(attempts@.subrange(0, attempts@.len() as int) =~= attempts@);
    while i < attempts.len()
        invariant
            counter.wf(),
            i <= attempts@.len(),
            counter.past() == i,
            resolve(0, attempts@) == resolve(i as nat, attempts@.subrange(i as int, attempts@.len() as int)),
        decreases attempts@.len() - i,
    {
        let ghost rest = attempts@.subrange(i as int, attempts@.len() as int);
        assert(rest.drop_first() =~= attempts@.subrange(i + 1, attempts@.len() as int));
        match counter.after_attempt(attempts[i]) {
            RetryStep::Finished => {
                return Verdict::Succeeded;
            },
            RetryStep::GiveUp => {
                return Verdict::Failed;
            },
            RetryStep::RetryAfter { .. } => {},
        }
        i = i + 1;
    }
    proof {
        assert(attempts@.subrange(i as int, attempts@.len() as int).len() == 0);
    }
    Verdict::Pending
}

proof fn lemma_transient_then_success(past: nat, attempts: Seq<Attempt>, k: nat)
    requires
        past + k <= MAX_RETRIES,
        k < attempts.len(),
        forall|i: int| 0 <= i < k ==> attempts[i] == Attempt::Transient,
        attempts[k as int] == Attempt::Success,
    ensures
        resolve(past, attempts) == Verdict::Succeeded,
    decreases k,
{
    if k > 0 {
        let rest = attempts.drop_first();
        assert forall|i: int| 0 <= i < k - 1 implies rest[i] == Attempt::Transient by {
            assert(attempts[i + 1] == Attempt::Transient);
        }
        lemma_transient_then_success(past + 1, rest, (k - 1) as nat);
    }
}

proof fn lemma_transient_exhausts(past: nat, attempts: Seq<Attempt>)
    requires
        past <= MAX_RETRIES,
        attempts.len() > MAX_RETRIES - past,
        forall|i: int| 0 <= i <= MAX_RETRIES - past ==> attempts[i] == Attempt::Transient,
    ensures
        resolve(past, attempts) == Verdict::Failed,
    decreases MAX_RETRIES - past,
{
    if past < MAX_RETRIES {
        let rest = attempts.drop_first();
        assert forall|i: int| 0 <= i <= MAX_RETRIES - (past + 1) implies rest[i]
            == Attempt::Transient by {
            assert(attempts[i + 1] == Attempt::Transient);
        }
        lemma_transient_exhausts(past + 1, rest);
    }
}

/// A request whose first `k` attempts fail transiently, with `k` at most
/// `MAX_RETRIES`, and whose next attempt succeeds, succeeds with no error; one
/// whose first `MAX_RETRIES + 1` attempts all fail transiently fails, whatever
/// would come after.
pub proof fn lemma_retry_bound(attempts: Seq<Attempt>, k: nat)
    ensures
        k <= MAX_RETRIES && k < attempts.len() && (forall|i: int|
            0 <= i < k ==> attempts[i] == Attempt::Transient) && attempts[k as int]
            == Attempt::Success ==> resolve(0, attempts) == Verdict::Succeeded,
        attempts.len() > MAX_RETRIES && (forall|i: int|
            0 <= i <= MAX_RETRIES ==> attempts[i] == Attempt::Transient) ==> resolve(0, attempts)
            == Verdict::Failed,
{
    if k <= MAX_RETRIES && k < attempts.len() && (forall|i: int|
        0 <= i < k ==> attempts[i] == Attempt::Transient) && attempts[k as int]
        == Attempt::Success {
        lemma_transient_then_success(0, attempts, k);
    }
    if attempts.len() > MAX_RETRIES && (forall|i: int|
        0 <= i <= MAX_RETRIES ==> attempts[i] == Attempt::Transient) {
        lemma_transient_exhausts(0, attempts);
    }
}

} // verus!
