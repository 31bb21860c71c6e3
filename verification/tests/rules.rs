use ashford::api::error::ApiError;
use ashford::api::rules::{
    merge_deterministic_update, merge_llm_update, plan_deterministic_update, plan_llm_update, prepare_deterministic_rule,
    prepare_llm_rule, rule_not_found, rule_operation_failed, store_reply_answer, StoreReply, CreateDeterministicRuleRequest, CreateLlmRuleRequest, PrioritySwap, RuleKind, SwapEvent,
    SwapPrioritiesRequest, SwapStep, UpdateDeterministicRuleRequest, UpdateLlmRuleRequest,
};
use ashford::messages::{Header, Mailbox, Message};
use ashford::rules::conditions::{Condition, ConditionError, EvaluationContext, LeafCondition};
use ashford::rules::deterministic::{applicable_scope_queries, select_rule, sort_rules, LoaderStep, RuleLoader};
use ashford::rules::repositories::{label_reference_pattern, normalize_scope_ref};
use ashford::rules::types::{DeterministicRule, LlmRule, RuleScope, RulesChatRole, SafeMode};

fn empty_object() -> serde_json::Value {
    serde_json::Value::Object(serde_json::Map::new())
}

fn stored_rule(id: &str, priority: i64, created_at: i64) -> DeterministicRule {
    DeterministicRule {
        id: id.into(),
        org_id: 1,
        user_id: Some(1),
        name: format!("Rule {id}"),
        description: Some("desc".into()),
        scope: RuleScope::Sender,
        scope_ref: Some("a@b.com".into()),
        priority,
        enabled: true,
        disabled_reason: None,
        conditions_json: serde_json::Value::Bool(true),
        action_type: "archive".into(),
        action_parameters_json: empty_object(),
        safe_mode: SafeMode::Default,
        created_at,
        updated_at: created_at,
    }
}

fn stored_llm_rule() -> LlmRule {
    LlmRule {
        id: "r1".into(),
        org_id: 1,
        user_id: Some(1),
        name: "LLM".into(),
        description: Some("about".into()),
        scope: RuleScope::Domain,
        scope_ref: Some("example.com".into()),
        rule_text: "text".into(),
        enabled: true,
        metadata_json: empty_object(),
        created_at: 0,
        updated_at: 0,
    }
}

fn empty_update() -> UpdateDeterministicRuleRequest {
    UpdateDeterministicRuleRequest {
        name: None,
        description: None,
        scope: None,
        scope_ref: None,
        priority: None,
        enabled: None,
        disabled_reason: None,
        conditions_json: None,
        action_type: None,
        action_parameters_json: None,
        safe_mode: None,
    }
}

fn create_request(name: &str, action: &str, conditions: Option<serde_json::Value>) -> CreateDeterministicRuleRequest {
    CreateDeterministicRuleRequest {
        name: name.into(),
        description: None,
        scope: None,
        scope_ref: Some("ignored".into()),
        priority: None,
        enabled: None,
        conditions_json: conditions,
        action_type: action.into(),
        action_parameters_json: None,
        safe_mode: None,
    }
}

fn message(from: &str, account: &str) -> Message {
    Message {
        id: "msg1".into(),
        account_id: account.into(),
        thread_id: "thread1".into(),
        provider_message_id: "provider1".into(),
        from_email: Some(from.into()),
        from_name: Some("Sender".into()),
        to: vec![Mailbox { email: "to@example.com".into(), name: None }],
        cc: vec![],
        bcc: vec![],
        subject: Some("Your package has shipped".into()),
        snippet: None,
        received_at: None,
        internal_date: None,
        labels: vec!["INBOX".into()],
        headers: vec![Header { name: "Subject".into(), value: "Your package has shipped".into() }],
        body_plain: None,
        body_html: None,
        raw_json: empty_object(),
        created_at: 0,
        updated_at: 0,
        org_id: 1,
        user_id: 1,
    }
}

fn refusal<T: std::fmt::Debug>(r: Result<T, ashford::api::error::Rejection>) -> (u16, String, String) {
    let e = r.expect_err("expected a refusal");
    (e.status, e.error.error, e.error.message)
}

#[test]
fn create_deterministic_rule_defaults_scope_to_global() {
    let rule = prepare_deterministic_rule(create_request("Rule", "archive", Some(empty_object())), 1, 2).unwrap();
    assert_eq!(rule.scope, RuleScope::Global);
    assert!(rule.scope_ref.is_none());
    assert_eq!(rule.priority, 100);
    assert!(rule.enabled);
    assert_eq!(rule.safe_mode, SafeMode::Default);
    assert_eq!((rule.org_id, rule.user_id), (1, Some(2)));
    assert!(rule.disabled_reason.is_none());
}

#[test]
fn create_deterministic_rule_missing_name() {
    assert_eq!(
        refusal(prepare_deterministic_rule(create_request("  ", "archive", Some(empty_object())), 1, 1)),
        (400, "bad_request".into(), "Name is required".into())
    );
}

#[test]
fn create_deterministic_rule_missing_action_type() {
    assert_eq!(
        refusal(prepare_deterministic_rule(create_request("Rule", "", Some(empty_object())), 1, 1)),
        (400, "bad_request".into(), "Action type is required".into())
    );
}

#[test]
fn create_deterministic_rule_null_conditions() {
    assert_eq!(
        refusal(prepare_deterministic_rule(create_request("Rule", "archive", None), 1, 1)),
        (400, "bad_request".into(), "Conditions are required".into())
    );
}

#[test]
fn create_deterministic_rule_global_scope_ignores_scope_ref() {
    let mut req = create_request("Rule", "archive", Some(empty_object()));
    req.scope = Some(RuleScope::Global);
    req.scope_ref = Some("should-be-dropped".into());
    let rule = prepare_deterministic_rule(req, 1, 1).unwrap();
    assert!(rule.scope_ref.is_none());
}

#[test]
fn create_deterministic_rule_with_explicit_scope() {
    let mut req = create_request("Rule", "archive", Some(empty_object()));
    req.scope = Some(RuleScope::Domain);
    req.scope_ref = Some("example.com".into());
    req.priority = Some(5);
    req.safe_mode = Some(SafeMode::AlwaysSafe);
    let rule = prepare_deterministic_rule(req, 1, 1).unwrap();
    assert_eq!(rule.scope, RuleScope::Domain);
    assert_eq!(rule.scope_ref.as_deref(), Some("example.com"));
    assert_eq!(rule.priority, 5);
    assert_eq!(rule.safe_mode, SafeMode::AlwaysSafe);
}

fn llm_request(name: &str, text: &str, scope: Option<RuleScope>, scope_ref: Option<&str>) -> CreateLlmRuleRequest {
    CreateLlmRuleRequest {
        name: name.into(),
        description: None,
        scope,
        scope_ref: scope_ref.map(str::to_string),
        rule_text: text.into(),
        enabled: None,
        metadata_json: None,
    }
}

#[test]
fn create_llm_rule_missing_name() {
    assert_eq!(refusal(prepare_llm_rule(llm_request("", "t", None, None), 1, 1)).2, "Name is required");
}

#[test]
fn create_llm_rule_missing_rule_text() {
    assert_eq!(
        refusal(prepare_llm_rule(llm_request("n", " ", None, None), 1, 1)),
        (400, "bad_request".into(), "Rule text is required".into())
    );
}

#[test]
fn create_llm_rule_defaults_scope_to_global() {
    let rule = prepare_llm_rule(llm_request("n", "t", None, Some("x")), 1, 1).unwrap();
    assert_eq!(rule.scope, RuleScope::Global);
    assert!(rule.scope_ref.is_none());
    assert!(rule.enabled);
}

#[test]
fn create_llm_rule_with_explicit_scope() {
    let rule = prepare_llm_rule(llm_request("n", "t", Some(RuleScope::Sender), Some("a@b.com")), 1, 1).unwrap();
    assert_eq!(rule.scope, RuleScope::Sender);
    assert_eq!(rule.scope_ref.as_deref(), Some("a@b.com"));
}

#[test]
fn update_deterministic_rule_keep_description_when_absent() {
    let merged = merge_deterministic_update(stored_rule("r1", 10, 0), empty_update());
    assert_eq!(merged.name, "Rule r1");
    assert_eq!(merged.description.as_deref(), Some("desc"));
    assert_eq!(merged.scope_ref.as_deref(), Some("a@b.com"));
    assert_eq!(merged.priority, 10);
}

#[test]
fn update_deterministic_rule_clear_description_with_null() {
    let mut patch = empty_update();
    patch.description = Some(None);
    let merged = merge_deterministic_update(stored_rule("r1", 10, 0), patch);
    assert!(merged.description.is_none());
}

#[test]
fn update_deterministic_rule_enabled_toggle() {
    let mut patch = empty_update();
    patch.priority = Some(3);
    patch.enabled = Some(false);
    let merged = merge_deterministic_update(stored_rule("r1", 10, 0), patch);
    assert_eq!(merged.priority, 3);
    assert!(!merged.enabled);
}

#[test]
fn update_deterministic_rule_scope_to_global_clears_scope_ref() {
    let mut patch = empty_update();
    patch.scope = Some(RuleScope::Global);
    let merged = merge_deterministic_update(stored_rule("r1", 10, 0), patch);
    assert!(merged.scope_ref.is_none());
}

#[test]
fn update_deterministic_rule_clear_scope_ref_with_null() {
    let mut patch = empty_update();
    patch.scope_ref = Some(None);
    let merged = merge_deterministic_update(stored_rule("r1", 10, 0), patch);
    assert!(merged.scope_ref.is_none());
}

#[test]
fn update_llm_rule_scope_to_global_clears_scope_ref() {
    let patch = UpdateLlmRuleRequest {
        name: Some("Renamed".into()),
        description: Some(None),
        scope: Some(RuleScope::Global),
        scope_ref: None,
        rule_text: None,
        enabled: None,
        metadata_json: None,
    };
    let merged = merge_llm_update(stored_llm_rule(), patch);
    assert_eq!(merged.name, "Renamed");
    assert!(merged.description.is_none());
    assert!(merged.scope_ref.is_none());
    assert_eq!(merged.rule_text, "text");
}

#[test]
fn rule_errors_name_kind_and_id() {
    let r = rule_not_found(RuleKind::Deterministic, "abc");
    assert_eq!((r.status, r.error.message.as_str()), (404, "Deterministic rule not found: abc"));
    let r = rule_not_found(RuleKind::Llm, "x");
    assert_eq!(r.error.message, "LLM rule not found: x");
    let r = rule_operation_failed("update", RuleKind::Deterministic, "boom");
    assert_eq!((r.status, r.error.error.as_str()), (500, "internal_error"));
    assert_eq!(r.error.message, "Failed to update deterministic rule: boom");
    assert_eq!(ApiError::bad_request("m".into()).error, "bad_request");
}

#[test]
fn swap_deterministic_rule_priorities_success() {
    let (mut swap, step) = PrioritySwap::start(SwapPrioritiesRequest { rule_a_id: "a".into(), rule_b_id: "b".into() });
    assert_eq!(step, SwapStep::Connect);
    assert_eq!(swap.advance(SwapEvent::Connected), SwapStep::BeginTransaction);
    assert_eq!(swap.advance(SwapEvent::TransactionStarted), SwapStep::ReadPriority { rule_id: "a".into() });
    assert_eq!(swap.advance(SwapEvent::PriorityRead(Some(10))), SwapStep::ReadPriority { rule_id: "b".into() });
    assert_eq!(
        swap.advance(SwapEvent::PriorityRead(Some(20))),
        SwapStep::WritePriority { rule_id: "a".into(), priority: 20 }
    );
    assert_eq!(
        swap.advance(SwapEvent::PriorityWritten(1)),
        SwapStep::WritePriority { rule_id: "b".into(), priority: 10 }
    );
    assert_eq!(swap.advance(SwapEvent::PriorityWritten(1)), SwapStep::Commit);
    match swap.advance(SwapEvent::Committed) {
        SwapStep::Reply(Ok(resp)) => assert!(resp.success),
        other => panic!("unexpected step {other:?}"),
    }
}

#[test]
fn swap_deterministic_rule_priorities_rule_a_not_found() {
    let (mut swap, _) = PrioritySwap::start(SwapPrioritiesRequest {
        rule_a_id: "nonexistent-rule-id".into(),
        rule_b_id: "b".into(),
    });
    swap.advance(SwapEvent::Connected);
    swap.advance(SwapEvent::TransactionStarted);
    match swap.advance(SwapEvent::PriorityRead(None)) {
        SwapStep::Reply(Err(r)) => {
            assert_eq!(r.status, 404);
            assert_eq!(r.error.message, "Deterministic rule not found: nonexistent-rule-id");
        }
        other => panic!("unexpected step {other:?}"),
    }
}

#[test]
fn swap_deterministic_rule_priorities_rule_b_not_found() {
    let (mut swap, _) = PrioritySwap::start(SwapPrioritiesRequest { rule_a_id: "a".into(), rule_b_id: "missing".into() });
    swap.advance(SwapEvent::Connected);
    swap.advance(SwapEvent::TransactionStarted);
    swap.advance(SwapEvent::PriorityRead(Some(1)));
    match swap.advance(SwapEvent::PriorityRead(None)) {
        SwapStep::Reply(Err(r)) => assert_eq!(r.error.message, "Deterministic rule not found: missing"),
        other => panic!("unexpected step {other:?}"),
    }
}

#[test]
fn swap_deterministic_rule_priorities_empty_rule_a_id() {
    let (_, step) = PrioritySwap::start(SwapPrioritiesRequest { rule_a_id: " ".into(), rule_b_id: "b".into() });
    match step {
        SwapStep::Reply(Err(r)) => {
            assert_eq!(r.status, 400);
            assert_eq!(r.error.message, "Both rule IDs are required");
        }
        other => panic!("unexpected step {other:?}"),
    }
}

#[test]
fn swap_deterministic_rule_priorities_empty_rule_b_id() {
    let (_, step) = PrioritySwap::start(SwapPrioritiesRequest { rule_a_id: "a".into(), rule_b_id: "".into() });
    assert!(matches!(step, SwapStep::Reply(Err(ref r)) if r.status == 400 && r.error.message == "Both rule IDs are required"));
}

#[test]
fn swap_rejects_same_rule_and_aborts_on_concurrent_delete() {
    let (_, step) = PrioritySwap::start(SwapPrioritiesRequest { rule_a_id: "a".into(), rule_b_id: "a".into() });
    assert!(matches!(step, SwapStep::Reply(Err(ref r)) if r.error.message == "Cannot swap a rule's priority with itself"));
    let (mut swap, _) = PrioritySwap::start(SwapPrioritiesRequest { rule_a_id: "a".into(), rule_b_id: "b".into() });
    swap.advance(SwapEvent::Connected);
    swap.advance(SwapEvent::TransactionStarted);
    swap.advance(SwapEvent::PriorityRead(Some(1)));
    swap.advance(SwapEvent::PriorityRead(Some(2)));
    match swap.advance(SwapEvent::PriorityWritten(0)) {
        SwapStep::Reply(Err(r)) => {
            assert_eq!(r.status, 500);
            assert_eq!(r.error.message, "Rule was modified or deleted during swap");
        }
        other => panic!("unexpected step {other:?}"),
    }
}

#[test]
fn deterministic_rules_sorted_by_priority() {
    let sorted = sort_rules(vec![stored_rule("c", 5, 3), stored_rule("b", 1, 9), stored_rule("a", 5, 3), stored_rule("d", 5, 1)]);
    let ids: Vec<&str> = sorted.iter().map(|r| r.id.as_str()).collect();
    assert_eq!(ids, vec!["b", "d", "a", "c"]);
}

#[test]
fn scope_queries_cover_global_account_domain_sender() {
    let qs = applicable_scope_queries("acc1", Some("Alice@Amazon.COM"));
    let view: Vec<(RuleScope, Option<String>)> = qs.into_iter().map(|q| (q.scope, q.scope_ref)).collect();
    assert_eq!(
        view,
        vec![
            (RuleScope::Global, None),
            (RuleScope::Account, Some("acc1".into())),
            (RuleScope::Domain, Some("amazon.com".into())),
            (RuleScope::Sender, Some("Alice@Amazon.COM".into())),
        ]
    );
    assert_eq!(applicable_scope_queries("acc1", None).len(), 2);
    assert_eq!(applicable_scope_queries("acc1", Some("no-at-sign")).len(), 3);
}

#[test]
fn first_matching_rule_wins() {
    let rules = vec![stored_rule("first", 1, 0), stored_rule("second", 2, 0)];
    let conditions: Vec<Result<Condition, ConditionError>> = vec![
        Ok(Condition::Leaf(LeafCondition::SenderDomain { value: "example.com".into() })),
        Ok(Condition::Leaf(LeafCondition::SenderDomain { value: "amazon.com".into() })),
    ];
    let mut ctx = EvaluationContext::new();
    let found = select_rule(rules, conditions, &message("alice@amazon.com", "acc1"), &mut ctx).unwrap().unwrap();
    assert_eq!(found.rule.id, "second");
    assert_eq!(found.action_type, "archive");

    let rules = vec![stored_rule("bad", 1, 0)];
    let conditions = vec![Ok(Condition::Leaf(LeafCondition::SubjectRegex { value: "(".into() }))];
    let mut ctx = EvaluationContext::new();
    assert!(matches!(
        select_rule(rules, conditions, &message("alice@amazon.com", "acc1"), &mut ctx),
        Err(ConditionError::InvalidRegex { .. })
    ));
}

#[test]
fn stored_names_round_trip() {
    for s in [RuleScope::Global, RuleScope::Account, RuleScope::Sender, RuleScope::Domain] {
        assert_eq!(RuleScope::from_str(s.as_str()), Some(s));
    }
    for m in [SafeMode::Default, SafeMode::AlwaysSafe, SafeMode::DangerousOverride] {
        assert_eq!(SafeMode::from_str(m.as_str()), Some(m));
    }
    for r in [RulesChatRole::User, RulesChatRole::Assistant, RulesChatRole::System] {
        assert_eq!(RulesChatRole::from_str(r.as_str()), Some(r));
    }
    assert_eq!(RuleScope::from_str("planet"), None);
    assert_eq!(SafeMode::DangerousOverride.as_str(), "dangerous_override");
}

#[test]
fn repository_helpers() {
    assert_eq!(normalize_scope_ref(&RuleScope::Domain, &Some("Example.COM".into())).as_deref(), Some("example.com"));
    assert_eq!(label_reference_pattern("Label_1"), "%\"Label_1\"%");
}

#[test]
fn loader_runs_each_scope_query_then_sorts() {
    let (mut loader, step) = RuleLoader::new("acc1", Some("bob@example.com"));
    let mut seen = Vec::new();
    let mut step = step;
    let mut batch = 0;
    loop {
        match step {
            LoaderStep::Query(q) => {
                seen.push((q.scope, q.scope_ref));
                batch += 1;
                step = loader.add_results(vec![stored_rule(&format!("r{batch}"), 10 - batch, 0)]);
            }
            LoaderStep::Done(rules) => {
                let ids: Vec<&str> = rules.iter().map(|r| r.id.as_str()).collect();
                assert_eq!(ids, vec!["r4", "r3", "r2", "r1"]);
                break;
            }
        }
    }
    assert_eq!(
        seen,
        vec![
            (RuleScope::Global, None),
            (RuleScope::Account, Some("acc1".into())),
            (RuleScope::Domain, Some("example.com".into())),
            (RuleScope::Sender, Some("bob@example.com".into())),
        ]
    );
}

fn empty_llm_update() -> UpdateLlmRuleRequest {
    UpdateLlmRuleRequest {
        name: None,
        description: None,
        scope: None,
        scope_ref: None,
        rule_text: None,
        enabled: None,
        metadata_json: None,
    }
}

#[test]
fn update_deterministic_rule_not_found() {
    let mut patch = empty_update();
    patch.name = Some("New Name".into());
    let (status, kind, message) = refusal(plan_deterministic_update("nonexistent", StoreReply::NotFound, patch));
    assert_eq!((status, kind.as_str()), (404, "not_found"));
    assert_eq!(message, "Deterministic rule not found: nonexistent");
}

#[test]
fn update_llm_rule_not_found() {
    let mut patch = empty_llm_update();
    patch.name = Some("New Name".into());
    let (status, kind, message) = refusal(plan_llm_update("nonexistent", StoreReply::NotFound, patch));
    assert_eq!((status, kind.as_str()), (404, "not_found"));
    assert_eq!(message, "LLM rule not found: nonexistent");
}

#[test]
fn update_rule_fetch_failure_is_internal_error() {
    let (status, kind, message) =
        refusal(plan_deterministic_update("r1", StoreReply::Failed("disk full".into()), empty_update()));
    assert_eq!((status, kind.as_str()), (500, "internal_error"));
    assert_eq!(message, "Failed to fetch deterministic rule: disk full");
    let (status, _, message) = refusal(plan_llm_update("r1", StoreReply::Failed("gone".into()), empty_llm_update()));
    assert_eq!(status, 500);
    assert_eq!(message, "Failed to fetch LLM rule: gone");
}

#[test]
fn update_deterministic_rule_partial() {
    let mut existing = stored_rule("r1", 100, 0);
    existing.name = "Original Name".into();
    existing.description = Some("Original description".into());
    let mut patch = empty_update();
    patch.name = Some("Updated Name".into());
    let updated = plan_deterministic_update("r1", StoreReply::Done(existing), patch).unwrap();
    assert_eq!(updated.name, "Updated Name");
    assert_eq!(updated.description.as_deref(), Some("Original description"));
    assert_eq!(updated.priority, 100);
}

#[test]
fn update_deterministic_rule_lowercases_sender_scope_ref() {
    let mut patch = empty_update();
    patch.scope = Some(RuleScope::Domain);
    patch.scope_ref = Some(Some("Example.COM".into()));
    let updated = plan_deterministic_update("r1", StoreReply::Done(stored_rule("r1", 5, 0)), patch).unwrap();
    assert_eq!(updated.scope_ref.as_deref(), Some("example.com"));
    let mut patch = empty_update();
    patch.scope = Some(RuleScope::Account);
    patch.scope_ref = Some(Some("Acct-ABC".into()));
    let updated = plan_deterministic_update("r1", StoreReply::Done(stored_rule("r1", 5, 0)), patch).unwrap();
    assert_eq!(updated.scope_ref.as_deref(), Some("Acct-ABC"));
}

#[test]
fn create_deterministic_rule_lowercases_sender_scope_ref() {
    let mut req = create_request("Rule", "archive", Some(empty_object()));
    req.scope = Some(RuleScope::Sender);
    req.scope_ref = Some("Alice@Example.com".into());
    let rule = prepare_deterministic_rule(req, 1, 1).unwrap();
    assert_eq!(rule.scope_ref.as_deref(), Some("alice@example.com"));
}

#[test]
fn update_llm_rule_enabled_toggle() {
    let mut patch = empty_llm_update();
    patch.enabled = Some(false);
    let updated = plan_llm_update("r1", StoreReply::Done(stored_llm_rule()), patch).unwrap();
    assert!(!updated.enabled);
    assert_eq!(updated.description.as_deref(), Some("about"));
    assert_eq!(updated.scope_ref.as_deref(), Some("example.com"));
}

#[test]
fn update_llm_rule_clear_description_with_null() {
    let mut patch = empty_llm_update();
    patch.description = Some(None);
    let updated = plan_llm_update("r1", StoreReply::Done(stored_llm_rule()), patch).unwrap();
    assert_eq!(updated.description, None, "Description should be cleared");
}

#[test]
fn get_deterministic_rule_not_found() {
    let r = store_reply_answer::<DeterministicRule>(RuleKind::Deterministic, "get", "nonexistent", StoreReply::NotFound);
    assert_eq!(refusal(r).0, 404);
}

#[test]
fn get_llm_rule_not_found() {
    let r = store_reply_answer::<LlmRule>(RuleKind::Llm, "get", "nonexistent", StoreReply::NotFound);
    assert_eq!(refusal(r).0, 404);
}

#[test]
fn delete_deterministic_rule_not_found() {
    let r = store_reply_answer::<()>(RuleKind::Deterministic, "delete", "nonexistent", StoreReply::NotFound);
    assert_eq!(refusal(r).0, 404);
}

#[test]
fn delete_llm_rule_not_found() {
    let r = store_reply_answer::<()>(RuleKind::Llm, "delete", "nonexistent", StoreReply::NotFound);
    assert_eq!(refusal(r).0, 404);
}

#[test]
fn rule_write_reply_is_answered() {
    let r = store_reply_answer(RuleKind::Deterministic, "update", "r1", StoreReply::Done(7));
    assert_eq!(r.unwrap(), 7);
    let (status, _, message) =
        refusal(store_reply_answer::<()>(RuleKind::Deterministic, "update", "r1", StoreReply::Failed("locked".into())));
    assert_eq!(status, 500);
    assert_eq!(message, "Failed to update deterministic rule: locked");
    let (status, _, message) = refusal(store_reply_answer::<()>(RuleKind::Llm, "update", "r9", StoreReply::NotFound));
    assert_eq!(status, 404);
    assert_eq!(message, "LLM rule not found: r9");
}

#[test]
fn created_rules_default_to_empty_json_objects() {
    let rule = prepare_deterministic_rule(create_request("Rule", "archive", Some(serde_json::Value::Bool(true))), 1, 1)
        .unwrap();
    assert_eq!(rule.action_parameters_json, empty_object());
    assert_eq!(rule.conditions_json, serde_json::Value::Bool(true));
    let rule = prepare_llm_rule(llm_request("Rule", "text", None, None), 1, 1).unwrap();
    assert_eq!(rule.metadata_json, empty_object());
}
