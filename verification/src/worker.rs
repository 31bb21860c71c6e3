//! Worker decisions: job errors, the outcome recorded for an executed job, and
//! the protocol that persists that outcome despite store failures.

use vstd::prelude::*;

use crate::text::{owned, push_str, string_from_chars};

verus! {

// ---------------------------------------------------------------------------
// Configuration
// ---------------------------------------------------------------------------

/// Worker timing, in milliseconds.
#[derive(Debug, Clone, Copy, PartialEq, Eq)]
pub struct WorkerConfig {
    pub poll_interval_ms: u64,
    pub heartbeat_interval_ms: u64,
    /// Longest wait for in-flight jobs during a graceful shutdown.
    pub drain_timeout_ms: u64,
}

impl Default for WorkerConfig {
    /// Poll every second, heartbeat every 30 seconds, drain for 30 seconds.
    fn default() -> (r: Self)
        ensures
            r.poll_interval_ms == 1000,
            r.heartbeat_interval_ms == 30_000,
            r.drain_timeout_ms == 30_000,
    {
        WorkerConfig { poll_interval_ms: 1000, heartbeat_interval_ms: 30_000, drain_timeout_ms: 30_000 }
    }
}

/// What the worker loop does next.
#[derive(Debug, Clone, Copy, PartialEq, Eq)]
pub enum LoopAction {
    /// Claim the next job.
    Claim,
    /// Shutting down with jobs in flight: wait briefly for them.
    Drain,
    /// Stop the loop.
    Exit,
}

/// The worker loop's next move: claim jobs until a shutdown is requested,
/// then wait for in-flight jobs, stopping once none is left or a hard
/// shutdown is requested.
pub fn next_loop_action(shutdown: bool, in_flight: usize, hard_shutdown: bool) -> (r: LoopAction)
    ensures
        !shutdown ==> r == LoopAction::Claim,
        shutdown && (in_flight == 0 || hard_shutdown) ==> r == LoopAction::Exit,
        shutdown && in_flight > 0 && !hard_shutdown ==> r == LoopAction::Drain,
{
    if !shutdown {
        LoopAction::Claim
    } else if in_flight == 0 || hard_shutdown {
        LoopAction::Exit
    } else {
        LoopAction::Drain
    }
}

// ---------------------------------------------------------------------------
// Job errors
// ---------------------------------------------------------------------------

/// Why a job did not complete. Delays are in milliseconds.
#[derive(Debug, Clone, PartialEq, Eq)]
pub enum JobError {
    Retryable { message: String, retry_after_ms: Option<u64> },
    Fatal(String),
}

/// The display text of a job failure.
pub open spec fn job_error_text(e: JobError) -> Seq<char> {
    match e {
        JobError::Retryable { message, .. } => "retryable: "@ + message@,
        JobError::Fatal(message) => "fatal: "@ + message@,
    }
}

impl JobError {
    /// The failure may be retried.
    pub fn is_retryable(&self) -> (r: bool)
        ensures
            r == (*self is Retryable),
    {
        match self {
            JobError::Retryable { .. } => true,
            JobError::Fatal(_) => false,
        }
    }

    /// The failure's message.
    pub fn message(&self) -> (r: &str)
        ensures
            r@ == match *self {
                JobError::Retryable { message, .. } => message@,
                JobError::Fatal(message) => message@,
            },
    {
        match self {
            JobError::Retryable { message, .. } => message.as_str(),
            JobError::Fatal(message) => message.as_str(),
        }
    }

    /// The delay asked for before a retry, if any.
    pub fn retry_after(&self) -> (r: Option<u64>)
        ensures
            r == match *self {
                JobError::Retryable { retry_after_ms, .. } => retry_after_ms,
                JobError::Fatal(_) => None,
            },
    {
        match self {
            JobError::Retryable { retry_after_ms, .. } => *retry_after_ms,
            JobError::Fatal(_) => None,
        }
    }

    /// The failure's display text: `retryable: <message>` or `fatal: <message>`.
    pub fn to_string(&self) -> (r: String)
        ensures
            r@ == job_error_text(*self),
    {
        proof {
            reveal_strlit("retryable: ");
            reveal_strlit("fatal: ");
        }
        let mut v: Vec<char> = Vec::new();
        match self {
            JobError::Retryable { message, .. } => {
                push_str(&mut v, "retryable: ");
                push_str(&mut v, message.as_str());
            },
            JobError::Fatal(message) => {
                push_str(&mut v, "fatal: ");
                push_str(&mut v, message.as_str());
            },
        }
        string_from_chars(&v)
    }

    /// A retryable failure without a requested delay.
    pub fn retryable(message: String) -> (r: Self)
        ensures
            r == (JobError::Retryable { message, retry_after_ms: None }),
    {
        JobError::Retryable { message, retry_after_ms: None }
    }

    /// A retryable failure to be retried after `retry_after_ms`.
    pub fn retryable_after(message: String, retry_after_ms: u64) -> (r: Self)
        ensures
            r == (JobError::Retryable { message, retry_after_ms: Some(retry_after_ms) }),
    {
        JobError::Retryable { message, retry_after_ms: Some(retry_after_ms) }
    }
}

/// An executor that records one step named `noop` and succeeds.
#[derive(Debug, Clone, Copy, PartialEq, Eq)]
pub struct NoopExecutor;

impl NoopExecutor {
    /// The name of the step it records.
    pub fn step_name(&self) -> (r: &'static str)
        ensures
            r@ == "noop"@,
    {
        "noop"
    }

    /// A store failure while recording the step is fatal to the job.
    pub fn step_failed(&self, error_text: String) -> (r: JobError)
        ensures
            r == JobError::Fatal(error_text),
    {
        JobError::Fatal(error_text)
    }
}

// ---------------------------------------------------------------------------
// Outcome of an execution
// ---------------------------------------------------------------------------

/// How the executor returned.
#[derive(Debug)]
pub enum ExecutionOutcome {
    Succeeded,
    Failed(JobError),
    /// It panicked, with this text when the payload was a string.
    Panicked(Option<String>),
}

/// What to record for the job.
#[derive(Debug, PartialEq, Eq)]
pub enum FinalizeAction {
    Complete,
    Fail { message: String, retry: bool, retry_after_ms: Option<u64> },
}

impl Clone for FinalizeAction {
    fn clone(&self) -> (r: Self)
        ensures
            r == *self,
    {
        match self {
            FinalizeAction::Complete => FinalizeAction::Complete,
            FinalizeAction::Fail { message, retry, retry_after_ms } => FinalizeAction::Fail {
                message: message.clone(),
                retry: *retry,
                retry_after_ms: *retry_after_ms,
            },
        }
    }
}

/// The record for an execution: success completes the job; an error fails it,
/// retryably when the error says so; a panic fails it retryably with the
/// panic's text (or `worker panic`).
pub fn finalize_action_for(outcome: ExecutionOutcome) -> (r: FinalizeAction)
    ensures
        match outcome {
            ExecutionOutcome::Succeeded => r == FinalizeAction::Complete,
            ExecutionOutcome::Failed(e) => r matches FinalizeAction::Fail { message, retry, retry_after_ms }
                && retry == (e is Retryable) && match e {
                JobError::Retryable { message: m, retry_after_ms: d } => message == m && retry_after_ms == d,
                JobError::Fatal(m) => message == m && retry_after_ms is None,
            },
            ExecutionOutcome::Panicked(p) => r matches FinalizeAction::Fail { message, retry, retry_after_ms }
                && retry && retry_after_ms is None && match p {
                Some(t) => message == t,
                None => message@ == "worker panic"@,
            },
        },
{
    match outcome {
        ExecutionOutcome::Succeeded => FinalizeAction::Complete,
        ExecutionOutcome::Failed(e) => {
            let retry = e.is_retryable();
            match e {
                JobError::Retryable { message, retry_after_ms } => FinalizeAction::Fail {
                    message,
                    retry,
                    retry_after_ms,
                },
                JobError::Fatal(message) => FinalizeAction::Fail { message, retry, retry_after_ms: None },
            }
        },
        ExecutionOutcome::Panicked(p) => {
            let message = match p {
                Some(t) => t,
                None => owned("worker panic"),
            };
            FinalizeAction::Fail { message, retry: true, retry_after_ms: None }
        },
    }
}

// ---------------------------------------------------------------------------
// Persisting the outcome
// ---------------------------------------------------------------------------

/// The pause between two attempts to persist an outcome: half the heartbeat
/// interval, kept between 10 ms and 5 s.
pub open spec fn finalize_backoff_spec(heartbeat_interval_ms: u64) -> u64 {
    let half = heartbeat_interval_ms / 2;
    if half < 10 {
        10
    } else if half > 5000 {
        5000
    } else {
        half
    }
}

/// The pause between two attempts to persist an outcome, in milliseconds.
pub fn finalize_backoff(heartbeat_interval_ms: u64) -> (r: u64)
    ensures
        r == finalize_backoff_spec(heartbeat_interval_ms),
        10 <= r <= 5000,
{
    let half = heartbeat_interval_ms / 2;
    if half < 10 {
        10
    } else if half > 5000 {
        5000
    } else {
        half
    }
}

/// How persisting an outcome ended.
#[derive(Debug, Clone, PartialEq, Eq)]
pub enum FinalizeResult {
    /// Recorded, or nothing left to record (the job was canceled or had left
    /// the running state), or abandoned on a hard shutdown.
    Done,
    /// The heartbeat stopped while waiting to retry; the last store error.
    Failed(String),
}

/// What the store, or the wait between attempts, reported.
#[derive(Debug, Clone, PartialEq, Eq)]
pub enum FinalizeEvent {
    /// The job's current state.
    Fetched(crate::queue::JobState),
    FetchFailed(String),
    /// The outcome was written.
    Persisted,
    /// The job was no longer running when written.
    NotRunning,
    PersistFailed(String),
    /// The pause ended; whether a hard shutdown has been requested meanwhile.
    Slept { hard_shutdown: bool },
    /// A hard shutdown interrupted the pause.
    HardShutdown,
    /// The heartbeat was stopped during the pause.
    HeartbeatCanceled,
}

/// What to do next.
#[derive(Debug, Clone, PartialEq, Eq)]
pub enum FinalizeStep {
    FetchJob,
    Persist(FinalizeAction),
    /// Wait this long, unless a hard shutdown or the heartbeat's end comes first.
    Pause { ms: u64 },
    Finish(FinalizeResult),
}

/// Where the protocol stands.
#[derive(Debug, Clone, PartialEq, Eq)]
pub enum FinalizePhase {
    Fetching,
    Persisting,
    /// Pausing after a store failure, with its text.
    Pausing { error: String },
    Finished,
}

/// Persists the outcome of one job.
#[derive(Debug)]
pub struct Finalizer {
    action: FinalizeAction,
    backoff_ms: u64,
    phase: FinalizePhase,
}

/// One move of the protocol, for the given outcome and pause.
pub open spec fn finalize_transition(
    action: FinalizeAction,
    backoff_ms: u64,
    phase: FinalizePhase,
    event: FinalizeEvent,
    next: FinalizePhase,
    step: FinalizeStep,
) -> bool {
    match phase {
        FinalizePhase::Fetching => match event {
            FinalizeEvent::Fetched(crate::queue::JobState::Canceled) => next == FinalizePhase::Finished && step
                == FinalizeStep::Finish(FinalizeResult::Done),
            FinalizeEvent::Fetched(_) => next == FinalizePhase::Persisting && step == FinalizeStep::Persist(
                action,
            ),
            FinalizeEvent::FetchFailed(e) => next == (FinalizePhase::Pausing { error: e }) && step
                == (FinalizeStep::Pause { ms: backoff_ms }),
            _ => (next matches FinalizePhase::Pausing { error } && error@ == Seq::<char>::empty()) && step
                == (FinalizeStep::Pause { ms: backoff_ms }),
        },
        FinalizePhase::Persisting => match event {
            FinalizeEvent::Persisted | FinalizeEvent::NotRunning => next == FinalizePhase::Finished && step
                == FinalizeStep::Finish(FinalizeResult::Done),
            FinalizeEvent::PersistFailed(e) => next == (FinalizePhase::Pausing { error: e }) && step
                == (FinalizeStep::Pause { ms: backoff_ms }),
            _ => (next matches FinalizePhase::Pausing { error } && error@ == Seq::<char>::empty()) && step
                == (FinalizeStep::Pause { ms: backoff_ms }),
        },
        FinalizePhase::Pausing { error } => match event {
            FinalizeEvent::Slept { hard_shutdown } => if hard_shutdown {
                next == FinalizePhase::Finished && step == FinalizeStep::Finish(FinalizeResult::Done)
            } else {
                next == FinalizePhase::Fetching && step == FinalizeStep::FetchJob
            },
            FinalizeEvent::HeartbeatCanceled => next == FinalizePhase::Finished && step == FinalizeStep::Finish(
                FinalizeResult::Failed(error),
            ),
            _ => next == FinalizePhase::Finished && step == FinalizeStep::Finish(FinalizeResult::Done),
        },
        FinalizePhase::Finished => false,
    }
}

impl Finalizer {
    /// The outcome being persisted.
    pub closed spec fn action(&self) -> FinalizeAction {
        self.action
    }

    /// The pause between attempts.
    pub closed spec fn backoff_ms(&self) -> u64 {
        self.backoff_ms
    }

    /// The current phase.
    pub closed spec fn phase(&self) -> FinalizePhase {
        self.phase
    }

    /// Starts persisting `action`. On a hard shutdown nothing is attempted;
    /// otherwise the job's current state is fetched first.
    pub fn start(action: FinalizeAction, heartbeat_interval_ms: u64, hard_shutdown: bool) -> (r: (
        Self,
        FinalizeStep,
    ))
        ensures
            r.0.action() == action,
            r.0.backoff_ms() == finalize_backoff_spec(heartbeat_interval_ms),
            hard_shutdown ==> r.0.phase() == FinalizePhase::Finished && r.1 == FinalizeStep::Finish(
                FinalizeResult::Done,
            ),
            !hard_shutdown ==> r.0.phase() == FinalizePhase::Fetching && r.1 == FinalizeStep::FetchJob,
    {
        let backoff_ms = finalize_backoff(heartbeat_interval_ms);
        if hard_shutdown {
            (
                Finalizer { action, backoff_ms, phase: FinalizePhase::Finished },
                FinalizeStep::Finish(FinalizeResult::Done),
            )
        } else {
            (Finalizer { action, backoff_ms, phase: FinalizePhase::Fetching }, FinalizeStep::FetchJob)
        }
    }

    /// Takes the outcome of the last step and gives the next one.
    pub fn advance(&mut self, event: FinalizeEvent) -> (step: FinalizeStep)
        requires
            old(self).phase() != FinalizePhase::Finished,
        ensures
            final(self).action() == old(self).action(),
            final(self).backoff_ms() == old(self).backoff_ms(),
            finalize_transition(
                old(self).action(),
                old(self).backoff_ms(),
                old(self).phase(),
                event,
                final(self).phase(),
                step,
            ),
    {
        let mut phase = FinalizePhase::Finished;
        std::mem::swap(&mut phase, &mut self.phase);
        let (next, step) = match phase {
            FinalizePhase::Fetching => match event {
                FinalizeEvent::Fetched(crate::queue::JobState::Canceled) => (
                    FinalizePhase::Finished,
                    FinalizeStep::Finish(FinalizeResult::Done),
                ),
                FinalizeEvent::Fetched(_) => (FinalizePhase::Persisting, FinalizeStep::Persist(self.action.clone())),
                FinalizeEvent::FetchFailed(e) => (
                    FinalizePhase::Pausing { error: e },
                    FinalizeStep::Pause { ms: self.backoff_ms },
                ),
                _ => (
                    FinalizePhase::Pausing { error: String::new() },
                    FinalizeStep::Pause { ms: self.backoff_ms },
                ),
            },
            FinalizePhase::Persisting => match event {
                FinalizeEvent::Persisted | FinalizeEvent::NotRunning => (
                    FinalizePhase::Finished,
                    FinalizeStep::Finish(FinalizeResult::Done),
                ),
                FinalizeEvent::PersistFailed(e) => (
                    FinalizePhase::Pausing { error: e },
                    FinalizeStep::Pause { ms: self.backoff_ms },
                ),
                _ => (
                    FinalizePhase::Pausing { error: String::new() },
                    FinalizeStep::Pause { ms: self.backoff_ms },
                ),
            },
            FinalizePhase::Pausing { error } => match event {
                FinalizeEvent::Slept { hard_shutdown } => {
                    if hard_shutdown {
                        (FinalizePhase::Finished, FinalizeStep::Finish(FinalizeResult::Done))
                    } else {
                        (FinalizePhase::Fetching, FinalizeStep::FetchJob)
                    }
                },
                FinalizeEvent::HeartbeatCanceled => (
                    FinalizePhase::Finished,
                    FinalizeStep::Finish(FinalizeResult::Failed(error)),
                ),
                _ => (FinalizePhase::Finished, FinalizeStep::Finish(FinalizeResult::Done)),
            },
            FinalizePhase::Finished => (FinalizePhase::Finished, FinalizeStep::Finish(FinalizeResult::Done)),
        };
        self.phase = next;
        step
    }
}

/// Persisting an outcome writes exactly the recorded action and writes only
/// after seeing the job not canceled; a canceled job is left alone; store
/// failures are retried after the fixed pause; a hard shutdown ends the
/// protocol without error, and the heartbeat's end during a pause gives back
/// the last store error.
pub proof fn lemma_finalize_protocol(
    action: FinalizeAction,
    backoff_ms: u64,
    phase: FinalizePhase,
    event: FinalizeEvent,
    next: FinalizePhase,
    step: FinalizeStep,
)
    requires
        finalize_transition(action, backoff_ms, phase, event, next, step),
    ensures
        step matches FinalizeStep::Persist(a) ==> a == action && phase == FinalizePhase::Fetching && (
        event matches FinalizeEvent::Fetched(s) && s != crate::queue::JobState::Canceled),
        event == FinalizeEvent::Fetched(crate::queue::JobState::Canceled) && phase == FinalizePhase::Fetching
            ==> step == FinalizeStep::Finish(FinalizeResult::Done),
        step is Pause ==> step == (FinalizeStep::Pause { ms: backoff_ms }),
        event == FinalizeEvent::HardShutdown || event == (FinalizeEvent::Slept { hard_shutdown: true }) ==> (
        phase is Pausing ==> step == FinalizeStep::Finish(FinalizeResult::Done)),
        step matches FinalizeStep::Finish(FinalizeResult::Failed(e)) ==> phase == (FinalizePhase::Pausing {
            error: e,
        }) && event == FinalizeEvent::HeartbeatCanceled,
{
}

} // verus!
