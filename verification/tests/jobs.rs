use ashford::migrations::{known_migration_versions, pending_migrations};
use ashford::queue::{
    resolve_missing_state, Lookup, MissingState, backoff_base, backoff_delay, backoff_with_jitter, decide_failure, fail_outcome, is_unique_violation, FailOutcome,
    JobState,
};
use ashford::worker::{
    finalize_action_for, finalize_backoff, ExecutionOutcome, FinalizeAction, FinalizeEvent, FinalizeResult,
    FinalizeStep, Finalizer, JobError, LoopAction, NoopExecutor, WorkerConfig, next_loop_action,
};

#[test]
fn job_state_names_round_trip() {
    for s in [JobState::Queued, JobState::Running, JobState::Completed, JobState::Failed, JobState::Canceled] {
        assert_eq!(JobState::from_str(s.as_str()), Some(s));
    }
    assert_eq!(JobState::Running.as_str(), "running");
    assert_eq!(JobState::from_str("paused"), None);
}

#[test]
fn backoff_grows_and_caps() {
    assert_eq!(backoff_base(0), 2);
    assert_eq!(backoff_base(1), 2);
    assert_eq!(backoff_base(3), 8);
    assert_eq!(backoff_base(8), 256);
    assert_eq!(backoff_base(9), 300);
    assert_eq!(backoff_base(i64::MAX), 300);
    assert_eq!(backoff_delay(3, 750), 6000);
    assert_eq!(backoff_delay(3, 1250), 10_000);
    for _ in 0..20 {
        let d = backoff_with_jitter(2);
        assert!((3000..=5000).contains(&d), "delay {d} outside jitter range");
    }
}

#[test]
fn fail_requeues_with_backoff_until_max_attempts() {
    assert_eq!(decide_failure(1, 5, true, None, 1000), FailOutcome::Requeue { delay_ms: 2000 });
    assert_eq!(decide_failure(5, 5, true, None, 1000), FailOutcome::Fail);
    assert_eq!(decide_failure(1, 5, false, None, 1000), FailOutcome::Fail);
}

#[test]
fn fail_uses_explicit_retry_after_when_provided() {
    assert_eq!(fail_outcome(1, 5, true, Some(2000)), FailOutcome::Requeue { delay_ms: 2000 });
}

#[test]
fn max_attempts_moves_to_failed_state() {
    assert_eq!(fail_outcome(1, 1, true, None), FailOutcome::Fail);
}

#[test]
fn unique_violation_is_read_from_text() {
    assert!(is_unique_violation("SQLite failure: UNIQUE constraint failed: jobs.idempotency_key"));
    assert!(!is_unique_violation("database is locked"));
}

#[test]
fn job_error_accessors() {
    let e = JobError::retryable("retry 1".into());
    assert!(e.is_retryable());
    assert_eq!(e.message(), "retry 1");
    assert_eq!(e.retry_after(), None);
    let e = JobError::retryable_after("later".into(), 400);
    assert_eq!(e.retry_after(), Some(400));
    let e = JobError::Fatal("fatal x".into());
    assert!(!e.is_retryable());
    assert_eq!(e.message(), "fatal x");
    assert_eq!(e.retry_after(), None);
}

#[test]
fn worker_config_defaults() {
    let c = WorkerConfig::default();
    assert_eq!((c.poll_interval_ms, c.heartbeat_interval_ms, c.drain_timeout_ms), (1000, 30_000, 30_000));
    assert_eq!(NoopExecutor.step_name(), "noop");
    assert_eq!(NoopExecutor.step_failed("db".into()), JobError::Fatal("db".into()));
}

#[test]
fn execution_outcomes_map_to_records() {
    assert_eq!(finalize_action_for(ExecutionOutcome::Succeeded), FinalizeAction::Complete);
    assert_eq!(
        finalize_action_for(ExecutionOutcome::Failed(JobError::retryable_after("r".into(), 400))),
        FinalizeAction::Fail { message: "r".into(), retry: true, retry_after_ms: Some(400) }
    );
    assert_eq!(
        finalize_action_for(ExecutionOutcome::Failed(JobError::Fatal("f".into()))),
        FinalizeAction::Fail { message: "f".into(), retry: false, retry_after_ms: None }
    );
    assert_eq!(
        finalize_action_for(ExecutionOutcome::Panicked(None)),
        FinalizeAction::Fail { message: "worker panic".into(), retry: true, retry_after_ms: None }
    );
    assert_eq!(
        finalize_action_for(ExecutionOutcome::Panicked(Some("panic in executor".into()))),
        FinalizeAction::Fail { message: "panic in executor".into(), retry: true, retry_after_ms: None }
    );
}

#[test]
fn finalize_retries_store_failures_and_skips_canceled_jobs() {
    assert_eq!(finalize_backoff(30_000), 5000);
    assert_eq!(finalize_backoff(10), 10);
    assert_eq!(finalize_backoff(600), 300);

    let (mut f, step) = Finalizer::start(FinalizeAction::Complete, 600, false);
    assert_eq!(step, FinalizeStep::FetchJob);
    assert_eq!(f.advance(FinalizeEvent::FetchFailed("locked".into())), FinalizeStep::Pause { ms: 300 });
    assert_eq!(f.advance(FinalizeEvent::Slept { hard_shutdown: false }), FinalizeStep::FetchJob);
    assert_eq!(f.advance(FinalizeEvent::Fetched(JobState::Running)), FinalizeStep::Persist(FinalizeAction::Complete));
    assert_eq!(f.advance(FinalizeEvent::PersistFailed("busy".into())), FinalizeStep::Pause { ms: 300 });
    assert_eq!(
        f.advance(FinalizeEvent::HeartbeatCanceled),
        FinalizeStep::Finish(FinalizeResult::Failed("busy".into()))
    );

    let (mut f, _) = Finalizer::start(FinalizeAction::Complete, 600, false);
    assert_eq!(f.advance(FinalizeEvent::Fetched(JobState::Canceled)), FinalizeStep::Finish(FinalizeResult::Done));

    let (_, step) = Finalizer::start(FinalizeAction::Complete, 600, true);
    assert_eq!(step, FinalizeStep::Finish(FinalizeResult::Done));
}

#[test]
fn pending_migrations_skip_applied_versions() {
    let versions = known_migration_versions();
    assert_eq!(versions.len(), 4);
    assert_eq!(versions[0], "001_initial");
    let none_applied = pending_migrations(&versions, &vec![]);
    assert_eq!(none_applied, versions);
    let applied = vec!["001_initial".to_string(), "003_add_thread_message_unique_indices".to_string()];
    let pending = pending_migrations(&versions, &applied);
    assert_eq!(pending, vec!["002_add_job_completion_fields".to_string(), "004_add_org_user_columns".to_string()]);
    assert!(pending_migrations(&versions, &versions).is_empty());
}

#[test]
fn failure_outcome_states() {
    let requeue = FailOutcome::Requeue { delay_ms: 10 };
    assert_eq!(requeue.next_state(), JobState::Queued);
    assert!(!requeue.finishes_job());
    assert_eq!(FailOutcome::Fail.next_state(), JobState::Failed);
    assert!(FailOutcome::Fail.finishes_job());
}

#[test]
fn missing_state_and_loop_decisions() {
    use_missing_state();
    use_loop();
}

fn use_missing_state() {
    assert_eq!(resolve_missing_state("j1", Lookup::Found), MissingState::NotRunning("j1".into()));
    assert_eq!(resolve_missing_state("j1", Lookup::NotFound), MissingState::JobNotFound("j1".into()));
    assert_eq!(resolve_missing_state("j1", Lookup::Failed), MissingState::LookupFailed);
}

fn use_loop() {
    assert_eq!(next_loop_action(false, 3, false), LoopAction::Claim);
    assert_eq!(next_loop_action(true, 0, false), LoopAction::Exit);
    assert_eq!(next_loop_action(true, 2, false), LoopAction::Drain);
    assert_eq!(next_loop_action(true, 2, true), LoopAction::Exit);
}

#[test]
fn job_error_text_names_its_kind() {
    assert_eq!(JobError::retryable("timeout".into()).to_string(), "retryable: timeout");
    assert_eq!(JobError::retryable_after("busy".into(), 250).to_string(), "retryable: busy");
    assert_eq!(JobError::Fatal("bad input".into()).to_string(), "fatal: bad input");
}
