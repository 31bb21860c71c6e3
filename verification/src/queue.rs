//! Job queue policies: job states and their stored names, the retry decision
//! taken when a job fails, its back-off delay, and how store errors are read.

use vstd::prelude::*;

use crate::text::{ascii_lower, ascii_lower_vec, chars_of, contains_seq, contains_vec, str_eq};

verus! {

// ---------------------------------------------------------------------------
// Job states
// ---------------------------------------------------------------------------

/// Where a job stands.
#[derive(Debug, Clone, Copy, PartialEq, Eq)]
pub enum JobState {
    Queued,
    Running,
    Completed,
    Failed,
    Canceled,
}

/// Stored name of a job state.
pub open spec fn job_state_name(s: JobState) -> Seq<char> {
    match s {
        JobState::Queued => "queued"@,
        JobState::Running => "running"@,
        JobState::Completed => "completed"@,
        JobState::Failed => "failed"@,
        JobState::Canceled => "canceled"@,
    }
}

/// The job state a stored name denotes, if any.
pub open spec fn job_state_from_name(n: Seq<char>) -> Option<JobState> {
    if n == "queued"@ {
        Some(JobState::Queued)
    } else if n == "running"@ {
        Some(JobState::Running)
    } else if n == "completed"@ {
        Some(JobState::Completed)
    } else if n == "failed"@ {
        Some(JobState::Failed)
    } else if n == "canceled"@ {
        Some(JobState::Canceled)
    } else {
        None
    }
}

impl JobState {
    /// Stored name of this state.
    pub fn as_str(&self) -> (r: &'static str)
        ensures
            r@ == job_state_name(*self),
    {
        match self {
            JobState::Queued => "queued",
            JobState::Running => "running",
            JobState::Completed => "completed",
            JobState::Failed => "failed",
            JobState::Canceled => "canceled",
        }
    }

    /// The state a stored name denotes, if any.
    pub fn from_str(value: &str) -> (r: Option<JobState>)
        ensures
            r == job_state_from_name(value@),
    {
        if str_eq(value, "queued") {
            Some(JobState::Queued)
        } else if str_eq(value, "running") {
            Some(JobState::Running)
        } else if str_eq(value, "completed") {
            Some(JobState::Completed)
        } else if str_eq(value, "failed") {
            Some(JobState::Failed)
        } else if str_eq(value, "canceled") {
            Some(JobState::Canceled)
        } else {
            None
        }
    }
}

/// Every state reads back from its stored name, and a name that reads as a
/// state is that state's name.
pub proof fn lemma_job_state_round_trip(s: JobState, n: Seq<char>)
    ensures
        job_state_from_name(job_state_name(s)) == Some(s),
        job_state_from_name(n) matches Some(x) ==> job_state_name(x) == n,
{
    reveal_strlit("queued");
    reveal_strlit("running");
    reveal_strlit("completed");
    reveal_strlit("failed");
    reveal_strlit("canceled");
    assert("queued"@[0] == 'q' && "running"@[0] == 'r' && "completed"@[0] == 'c');
    assert("failed"@[0] == 'f' && "canceled"@[0] == 'c' && "completed"@[1] == 'o' && "canceled"@[1] == 'a');
}

// ---------------------------------------------------------------------------
// Back-off
// ---------------------------------------------------------------------------

/// Lowest jitter factor, in thousandths.
pub const JITTER_MIN_PERMILLE: u64 = 750;

/// Highest jitter factor, in thousandths.
pub const JITTER_MAX_PERMILLE: u64 = 1250;

/// Longest back-off before jitter, in seconds.
pub const MAX_BACKOFF_SECS: u64 = 300;

/// `2` to the power `e`.
pub open spec fn pow2(e: nat) -> nat
    decreases e,
{
    if e == 0 {
        1
    } else {
        2 * pow2((e - 1) as nat)
    }
}

/// The back-off before jitter after `attempts` attempts, in seconds:
/// `2^attempts` (attempts taken between 1 and 20), at most 300.
pub open spec fn backoff_base_secs(attempts: i64) -> nat {
    let e: nat = if attempts < 1 {
        1
    } else if attempts > 20 {
        20
    } else {
        attempts as nat
    };
    if pow2(e) > MAX_BACKOFF_SECS {
        MAX_BACKOFF_SECS as nat
    } else {
        pow2(e)
    }
}

/// The back-off delay in milliseconds for a jitter factor given in thousandths.
pub open spec fn backoff_delay_ms(attempts: i64, jitter_permille: u64) -> nat {
    backoff_base_secs(attempts) * (jitter_permille as nat)
}

/// The back-off before jitter, in seconds.
pub fn backoff_base(attempts: i64) -> (r: u64)
    ensures
        r == backoff_base_secs(attempts),
        1 <= r <= MAX_BACKOFF_SECS,
{
    let e: u64 = if attempts < 1 {
        1
    } else if attempts > 20 {
        20
    } else {
        attempts as u64
    };
    let mut p: u64 = 1;
    let mut i: u64 = 0;
    while i < e
        invariant
            i <= e <= 20,
            p == pow2(i as nat),
            p <= 0x10_0000,
        decreases e - i,
    {
        proof {
            lemma_pow2_bound(i as nat);
        }
        p = p * 2;
        i = i + 1;
    }
    proof {
        lemma_pow2_positive(e as nat);
    }
    if p > MAX_BACKOFF_SECS {
        MAX_BACKOFF_SECS
    } else {
        p
    }
}

proof fn lemma_pow2_mono(a: nat, b: nat)
    requires
        a <= b,
    ensures
        pow2(a) <= pow2(b),
    decreases b,
{
    if a < b {
        lemma_pow2_mono(a, (b - 1) as nat);
    }
}

proof fn lemma_pow2_bound(e: nat)
    requires
        e < 20,
    ensures
        2 * pow2(e) <= 0x10_0000,
{
    lemma_pow2_mono(e, 19);
    reveal_with_fuel(pow2, 20);
    assert(pow2(19) == 0x80000);
}

proof fn lemma_pow2_positive(e: nat)
    ensures
        pow2(e) >= 1,
    decreases e,
{
    if e > 0 {
        lemma_pow2_positive((e - 1) as nat);
    }
}

/// The back-off delay in milliseconds for a given jitter factor (in
/// thousandths, between 750 and 1250).
pub fn backoff_delay(attempts: i64, jitter_permille: u64) -> (r: u64)
    requires
        JITTER_MIN_PERMILLE <= jitter_permille <= JITTER_MAX_PERMILLE,
    ensures
        r == backoff_delay_ms(attempts, jitter_permille),
        750 <= r <= 375_000,
{
    let base = backoff_base(attempts);
    assert(base * jitter_permille <= 300 * 1250) by (nonlinear_arith)
        requires
            base <= 300,
            jitter_permille <= 1250,
    ;
    assert(base * jitter_permille >= 750) by (nonlinear_arith)
        requires
            base >= 1,
            jitter_permille >= 750,
    ;
    base * jitter_permille
}

/// A random jitter factor in thousandths, drawn uniformly from 750..=1250
/// (`rand::Rng::gen_range` on the thread's generator). Only the range is
/// claimed: the value is random.
#[verifier::external_body]
fn random_jitter_permille() -> (r: u64)
    ensures
        JITTER_MIN_PERMILLE <= r <= JITTER_MAX_PERMILLE,
{
    rand::Rng::gen_range(&mut rand::thread_rng(), JITTER_MIN_PERMILLE..=JITTER_MAX_PERMILLE)
}

/// The back-off delay with a random jitter, in milliseconds.
pub fn backoff_with_jitter(attempts: i64) -> (r: u64)
    ensures
        exists|p: u64|
            JITTER_MIN_PERMILLE <= p <= JITTER_MAX_PERMILLE && r == #[trigger] backoff_delay_ms(attempts, p),
{
    let p = random_jitter_permille();
    backoff_delay(attempts, p)
}

// ---------------------------------------------------------------------------
// Failing a job
// ---------------------------------------------------------------------------

/// What becomes of a running job that failed.
#[derive(Debug, Clone, Copy, PartialEq, Eq)]
pub enum FailOutcome {
    /// Back to the queue, not to run before `delay_ms` from now.
    Requeue { delay_ms: u64 },
    /// Failed for good.
    Fail,
}

/// A failed job is retried when the failure allows it and attempts remain.
pub open spec fn retry_allowed(should_retry: bool, attempts: i64, max_attempts: i64) -> bool {
    should_retry && attempts < max_attempts
}

/// The outcome of a failure, given the jitter factor that would be used: the
/// caller's delay when given, else the back-off.
pub open spec fn fail_outcome_spec(
    attempts: i64,
    max_attempts: i64,
    should_retry: bool,
    retry_after_ms: Option<u64>,
    jitter_permille: u64,
) -> FailOutcome {
    if retry_allowed(should_retry, attempts, max_attempts) {
        FailOutcome::Requeue {
            delay_ms: match retry_after_ms {
                Some(d) => d,
                None => backoff_delay_ms(attempts, jitter_permille) as u64,
            },
        }
    } else {
        FailOutcome::Fail
    }
}

/// Decides what becomes of a failed job, for a given jitter factor.
pub fn decide_failure(
    attempts: i64,
    max_attempts: i64,
    should_retry: bool,
    retry_after_ms: Option<u64>,
    jitter_permille: u64,
) -> (r: FailOutcome)
    requires
        JITTER_MIN_PERMILLE <= jitter_permille <= JITTER_MAX_PERMILLE,
    ensures
        r == fail_outcome_spec(attempts, max_attempts, should_retry, retry_after_ms, jitter_permille),
{
    if should_retry && attempts < max_attempts {
        let delay_ms = match retry_after_ms {
            Some(d) => d,
            None => backoff_delay(attempts, jitter_permille),
        };
        FailOutcome::Requeue { delay_ms }
    } else {
        FailOutcome::Fail
    }
}

/// Decides what becomes of a failed job, drawing the jitter at random.
pub fn fail_outcome(attempts: i64, max_attempts: i64, should_retry: bool, retry_after_ms: Option<u64>) -> (r:
    FailOutcome)
    ensures
        exists|p: u64|
            JITTER_MIN_PERMILLE <= p <= JITTER_MAX_PERMILLE && r == #[trigger] fail_outcome_spec(
                attempts,
                max_attempts,
                should_retry,
                retry_after_ms,
                p,
            ),
{
    let p = random_jitter_permille();
    decide_failure(attempts, max_attempts, should_retry, retry_after_ms, p)
}

/// The state a failed job is stored in.
pub open spec fn state_after_failure(o: FailOutcome) -> JobState {
    match o {
        FailOutcome::Requeue { .. } => JobState::Queued,
        FailOutcome::Fail => JobState::Failed,
    }
}

impl FailOutcome {
    /// The state the job is stored in: queued again, or failed.
    pub fn next_state(&self) -> (r: JobState)
        ensures
            r == state_after_failure(*self),
    {
        match self {
            FailOutcome::Requeue { .. } => JobState::Queued,
            FailOutcome::Fail => JobState::Failed,
        }
    }

    /// The job is finished (its finish time recorded) only when it failed for
    /// good; a requeued job gets a not-before time instead.
    pub fn finishes_job(&self) -> (r: bool)
        ensures
            r == (*self is Fail),
    {
        match self {
            FailOutcome::Requeue { .. } => false,
            FailOutcome::Fail => true,
        }
    }
}

/// Retries are bounded: a job whose attempts reached its maximum, or whose
/// failure forbids retrying, is failed for good; a retried job waits the
/// caller's delay or a back-off between 0.75 and 1.25 times `2^attempts`
/// seconds (attempts taken between 1 and 20, at most 300 seconds).
pub proof fn lemma_retry_is_bounded(
    attempts: i64,
    max_attempts: i64,
    should_retry: bool,
    retry_after_ms: Option<u64>,
    jitter_permille: u64,
)
    requires
        JITTER_MIN_PERMILLE <= jitter_permille <= JITTER_MAX_PERMILLE,
    ensures
        !should_retry || attempts >= max_attempts ==> fail_outcome_spec(
            attempts,
            max_attempts,
            should_retry,
            retry_after_ms,
            jitter_permille,
        ) == FailOutcome::Fail,
        should_retry && attempts < max_attempts && retry_after_ms is None ==> (fail_outcome_spec(
            attempts,
            max_attempts,
            should_retry,
            retry_after_ms,
            jitter_permille,
        ) matches FailOutcome::Requeue { delay_ms } && 750 * backoff_base_secs(attempts) <= delay_ms
            <= 1250 * backoff_base_secs(attempts) && delay_ms <= 375_000),
{
    if should_retry && attempts < max_attempts && retry_after_ms is None {
        let b = backoff_base_secs(attempts);
        assert(1 <= b <= 300) by {
            let e: nat = if attempts < 1 {
                1
            } else if attempts > 20 {
                20
            } else {
                attempts as nat
            };
            lemma_pow2_positive(e);
        }
        assert(750 * b <= b * jitter_permille <= 1250 * b) by (nonlinear_arith)
            requires
                750 <= jitter_permille <= 1250,
                b >= 0,
        ;
        assert(b * jitter_permille <= 375_000) by (nonlinear_arith)
            requires
                jitter_permille <= 1250,
                b <= 300,
        ;
    }
}

/// A retried job waits exactly the delay its failure asked for, when it asked
/// for one; a failure that may be retried, with attempts left, is always
/// requeued. The back-off doubles with each attempt, starting at two seconds,
/// until it reaches the five-minute cap, and never shrinks as attempts grow.
pub proof fn lemma_retry_honours_requested_delay(
    attempts: i64,
    max_attempts: i64,
    retry_after_ms: Option<u64>,
    jitter_permille: u64,
)
    ensures
        attempts < max_attempts ==> fail_outcome_spec(attempts, max_attempts, true, retry_after_ms, jitter_permille) is Requeue,
        attempts < max_attempts && retry_after_ms is Some ==> fail_outcome_spec(
            attempts,
            max_attempts,
            true,
            retry_after_ms,
            jitter_permille,
        ) == (FailOutcome::Requeue { delay_ms: retry_after_ms->0 }),
        backoff_base_secs(1) == 2,
        attempts < 1 ==> backoff_base_secs(attempts) == 2,
        1 <= attempts < 20 ==> backoff_base_secs((attempts + 1) as i64) == if 2 * backoff_base_secs(attempts) > 300 {
            300
        } else {
            2 * backoff_base_secs(attempts)
        },
        attempts >= 20 ==> backoff_base_secs(attempts) == 300,
        1 <= attempts < 20 ==> backoff_base_secs(attempts) <= backoff_base_secs((attempts + 1) as i64),
{
    reveal_with_fuel(pow2, 2);
    if 1 <= attempts < 20 {
        let e = attempts as nat;
        assert(pow2(e + 1) == 2 * pow2(e));
        lemma_pow2_positive(e);
    }
    if attempts >= 20 {
        lemma_pow2_at_least(20);
    }
}

proof fn lemma_pow2_at_least(e: nat)
    requires
        e >= 9,
    ensures
        pow2(e) > 300,
    decreases e,
{
    if e == 9 {
        reveal_with_fuel(pow2, 10);
    } else {
        lemma_pow2_at_least((e - 1) as nat);
    }
}

// ---------------------------------------------------------------------------
// Store errors
// ---------------------------------------------------------------------------

/// The store's error text reports a violated uniqueness constraint.
pub open spec fn is_unique_violation_text(text: Seq<char>) -> bool {
    contains_seq(ascii_lower(text), "unique constraint failed"@)
}

/// Whether a store error reports a violated uniqueness constraint (read from
/// its text, ignoring ASCII case).
pub fn is_unique_violation(error_text: &str) -> (r: bool)
    ensures
        r == is_unique_violation_text(error_text@),
{
    let lower = ascii_lower_vec(&chars_of(error_text));
    contains_vec(&lower, &chars_of("unique constraint failed"))
}

// ---------------------------------------------------------------------------
// Jobs that were not running
// ---------------------------------------------------------------------------

/// What looking a job up again reported, after an update that required it to
/// be running changed nothing.
#[derive(Debug, Clone, Copy, PartialEq, Eq)]
pub enum Lookup {
    Found,
    NotFound,
    Failed,
}

/// Why the update changed nothing.
#[derive(Debug, Clone, PartialEq, Eq)]
pub enum MissingState {
    /// The job exists but is not running.
    NotRunning(String),
    /// There is no such job.
    JobNotFound(String),
    /// The lookup itself failed; its error is reported as it came.
    LookupFailed,
}

/// Explains an update of a running job that changed nothing: the job is
/// there but not running, or it does not exist.
pub fn resolve_missing_state(job_id: &str, lookup: Lookup) -> (r: MissingState)
    ensures
        lookup == Lookup::Found ==> (r matches MissingState::NotRunning(id) && id@ == job_id@),
        lookup == Lookup::NotFound ==> (r matches MissingState::JobNotFound(id) && id@ == job_id@),
        lookup == Lookup::Failed ==> r == MissingState::LookupFailed,
{
    match lookup {
        Lookup::Found => MissingState::NotRunning(crate::text::owned(job_id)),
        Lookup::NotFound => MissingState::JobNotFound(crate::text::owned(job_id)),
        Lookup::Failed => MissingState::LookupFailed,
    }
}

} // verus!
