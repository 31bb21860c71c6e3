use ashford::pubsub_listener::{
    listener_start, listener_step, ListenerAction, ListenerEvent, ListenerPhase, ListenerState,
};
use ashford::pubsub::{
    history_enqueue_result, history_idempotency_key, notification_payload, GmailNotification, HistoryEnqueue,
    PayloadError, JOB_TYPE_HISTORY_SYNC_GMAIL,
};
use ashford::pubsub_listener::{
    message_disposition, next_reconnect_backoff, plan_reconcile, AccountPubsub, DesiredListener, Disposition,
    ListenerRuntimeConfig, RunningListener, INITIAL_RECONNECT_BACKOFF_MS, MAX_RECONNECT_BACKOFF_MS,
};
use base64::Engine;

fn encode(bytes: &[u8]) -> Vec<u8> {
    base64::engine::general_purpose::URL_SAFE_NO_PAD.encode(bytes).into_bytes()
}

fn desired(account: &str, subscription: &str, credentials: &str) -> DesiredListener {
    DesiredListener {
        account_id: account.into(),
        subscription: subscription.into(),
        credentials: credentials.into(),
    }
}

fn account(id: &str, subscription: Option<&str>, credentials: Option<&str>) -> AccountPubsub {
    AccountPubsub {
        account_id: id.into(),
        subscription: subscription.map(str::to_string),
        credentials: credentials.map(str::to_string),
    }
}

fn running(id: &str, subscription: &str, credentials: &str, finished: bool) -> RunningListener {
    RunningListener {
        account_id: id.into(),
        config: ListenerRuntimeConfig::from_desired(&desired(id, subscription, credentials)),
        finished,
    }
}

#[test]
fn parses_valid_gmail_notification() {
    let payload = r#"{"emailAddress":"user@example.com","historyId":"12345"}"#;
    let data = encode(payload.as_bytes());
    let decoded = notification_payload(&data).expect("payload decodes");
    let value: serde_json::Value = serde_json::from_slice(&decoded).expect("json");
    assert_eq!(value["emailAddress"], "user@example.com");
    assert_eq!(value["historyId"], "12345");
}

#[test]
fn rejects_invalid_base64_payload() {
    let err = notification_payload(&b"not-base64".to_vec()).expect_err("should fail to decode");
    assert_eq!(err, PayloadError::Base64);
}

#[test]
fn rejects_invalid_json_after_decode() {
    let data = encode(b"not-json");
    let decoded = notification_payload(&data).expect("base64 decodes");
    assert_eq!(decoded, b"not-json".to_vec());
    assert!(serde_json::from_slice::<serde_json::Value>(&decoded).is_err());
}

#[test]
fn rejects_non_utf8_message_data() {
    let err = notification_payload(&vec![0xff, 0xfe]).expect_err("not utf-8");
    assert_eq!(err, PayloadError::Utf8);
}

#[test]
fn history_key_names_account_and_history() {
    let notification = GmailNotification { email_address: "user@example.com".into(), history_id: "99".into() };
    assert_eq!(history_idempotency_key("account-1", &notification), "history.sync.gmail:account-1:99");
    assert_eq!(JOB_TYPE_HISTORY_SYNC_GMAIL, "history.sync.gmail");
    assert!(history_enqueue_result(HistoryEnqueue::Enqueued).is_ok());
    assert!(history_enqueue_result(HistoryEnqueue::Duplicate).is_ok());
    assert_eq!(history_enqueue_result(HistoryEnqueue::Failed("db".into())), Err("db".to_string()));
}

#[test]
fn listener_runtime_config_detects_changes() {
    let desired_cfg = desired("a1", "sub-1", "creds-1");
    let runtime = ListenerRuntimeConfig::from_desired(&desired_cfg);
    assert!(runtime.matches(&desired_cfg), "identical config should match");
    let different_subscription = desired("a1", "sub-2", "creds-1");
    assert!(!runtime.matches(&different_subscription), "subscription change must trigger restart");
    let different_creds = desired("a1", "sub-1", "creds-2");
    assert!(!runtime.matches(&different_creds), "credential change must trigger restart");
}

#[test]
fn reconcile_keeps_restarts_stops_and_starts() {
    let existing = vec![
        running("keep", "s", "c", false),
        running("changed", "s", "old", false),
        running("gone", "s", "c", false),
        running("crashed", "s", "c", true),
    ];
    let accounts = vec![
        account("keep", Some("s"), Some("c")),
        account("changed", Some("s"), Some("new")),
        account("gone", None, Some("c")),
        account("crashed", Some("s"), Some("c")),
        account("fresh", Some("s2"), Some("c2")),
    ];
    let plan = plan_reconcile(&existing, &accounts);
    assert_eq!(plan.reap, vec!["crashed".to_string()]);
    assert_eq!(plan.stop, vec!["changed".to_string(), "gone".to_string()]);
    let mut started: Vec<String> = plan.start.iter().map(|d| d.account_id.clone()).collect();
    started.sort();
    assert_eq!(started, vec!["changed".to_string(), "crashed".to_string(), "fresh".to_string()]);
    let changed = plan.start.iter().find(|d| d.account_id == "changed").unwrap();
    assert_eq!(changed.credentials, "new");
}

#[test]
fn reconcile_uses_last_configuration_of_an_account() {
    let accounts = vec![
        account("a", Some("first"), Some("c")),
        account("a", Some("second"), Some("c")),
        account("a", None, None),
    ];
    let plan = plan_reconcile(&vec![], &accounts);
    assert_eq!(plan.start.len(), 1);
    assert_eq!(plan.start[0].subscription, "second");
    assert!(plan.reap.is_empty() && plan.stop.is_empty());
}

#[test]
fn reconnect_backoff_doubles_up_to_a_minute() {
    let mut b = INITIAL_RECONNECT_BACKOFF_MS;
    let mut seen = vec![b];
    for _ in 0..8 {
        b = next_reconnect_backoff(b);
        seen.push(b);
    }
    assert_eq!(seen, vec![1000, 2000, 4000, 8000, 16000, 32000, 60000, 60000, 60000]);
    assert_eq!(MAX_RECONNECT_BACKOFF_MS, 60_000);
    assert_eq!(message_disposition(true), Disposition::Ack);
    assert_eq!(message_disposition(false), Disposition::Nack);
}

#[test]
fn listener_loop_backs_off_resets_and_stops() {
    let (s, a) = listener_start(false);
    assert_eq!((s.phase, s.backoff_ms, a), (ListenerPhase::Opening, 1000, ListenerAction::Open));
    let (s, a) = listener_step(s, ListenerEvent::OpenFailed);
    assert_eq!(a, ListenerAction::Pause { ms: 1000 });
    let (s, a) = listener_step(s, ListenerEvent::Paused { shutdown: false });
    assert_eq!((s.backoff_ms, a), (2000, ListenerAction::Open));
    let (s, a) = listener_step(s, ListenerEvent::Opened);
    assert_eq!((s.phase, s.backoff_ms, a), (ListenerPhase::Streaming, 1000, ListenerAction::Receive));
    let (s, a) = listener_step(s, ListenerEvent::Received { processed: true });
    assert_eq!(a, ListenerAction::Settle(Disposition::Ack));
    let (s, a) = listener_step(s, ListenerEvent::Received { processed: false });
    assert_eq!(a, ListenerAction::Settle(Disposition::Nack));
    let (s2, a) = listener_step(s, ListenerEvent::ShutdownRequested);
    assert_eq!((s2.phase, a), (ListenerPhase::Stopped, ListenerAction::CloseAndStop));
    let (s, a) = listener_step(s, ListenerEvent::StreamEnded);
    assert_eq!((s.phase, a), (ListenerPhase::Pausing, ListenerAction::Pause { ms: 1000 }));
    let (s, a) = listener_step(s, ListenerEvent::ShutdownRequested);
    assert_eq!((s.phase, a), (ListenerPhase::Stopped, ListenerAction::Stop));
    let (s, a) = listener_start(true);
    assert_eq!((s.phase, a), (ListenerPhase::Stopped, ListenerAction::Stop));
}

#[test]
fn listener_backoff_caps_at_a_minute() {
    let s = ListenerState { phase: ListenerPhase::Pausing, backoff_ms: 40_000 };
    let (s, _) = listener_step(s, ListenerEvent::Paused { shutdown: false });
    assert_eq!(s.backoff_ms, 60_000);
}
