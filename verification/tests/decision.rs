use ashford::llm::decision::{
    decision_tool_call, extract_json_from_response, validate_decision, ActionDangerLevel, ActionType,
    AlternativeCheck, DecisionParseError, DecisionValidationError, MessageRef,
};
use ashford::llm::types::ToolCallResult;

const ALL_ACTIONS: [ActionType; 18] = [
    ActionType::ApplyLabel,
    ActionType::RemoveLabel,
    ActionType::MarkRead,
    ActionType::MarkUnread,
    ActionType::Archive,
    ActionType::Delete,
    ActionType::Trash,
    ActionType::Restore,
    ActionType::Move,
    ActionType::Star,
    ActionType::Unstar,
    ActionType::Forward,
    ActionType::AutoReply,
    ActionType::CreateTask,
    ActionType::Snooze,
    ActionType::AddNote,
    ActionType::Escalate,
    ActionType::NoAction,
];

struct SampleDecision {
    message_ref: MessageRef,
    confidence: f64,
    rationale: String,
    alternatives: Vec<(f64, String)>,
}

fn sample_decision() -> SampleDecision {
    SampleDecision {
        message_ref: MessageRef {
            provider: "gmail".into(),
            account_id: "acc_1".into(),
            thread_id: "thr_1".into(),
            message_id: "msg_1".into(),
        },
        confidence: 0.82,
        rationale: "Routine newsletter".into(),
        alternatives: vec![(0.3, "Less confident".into())],
    }
}

fn in_unit_range(value: f64) -> bool {
    (0.0..=1.0).contains(&value)
}

fn validate(d: &SampleDecision) -> Result<(), DecisionValidationError> {
    let alternatives: Vec<AlternativeCheck> = d
        .alternatives
        .iter()
        .map(|(c, why)| AlternativeCheck { confidence: c.to_bits(), confidence_in_range: in_unit_range(*c), why_not: why.clone() })
        .collect();
    validate_decision(&d.message_ref, &d.rationale, d.confidence.to_bits(), in_unit_range(d.confidence), &alternatives)
}

fn tool_call(name: &str) -> ToolCallResult {
    ToolCallResult {
        call_id: "call_123".into(),
        fn_name: name.into(),
        fn_arguments: serde_json::Value::Object(serde_json::Map::new()),
    }
}

#[test]
fn action_type_round_trips() {
    for action in ALL_ACTIONS {
        assert_eq!(ActionType::from_str(action.as_str()).unwrap(), action);
    }
    assert_eq!(ActionType::NoAction.as_str(), "none");
    assert_eq!(ActionType::AutoReply.as_str(), "auto_reply");
    assert!(ActionType::from_str("unknown").is_err());
}

#[test]
fn validate_accepts_valid_decision() {
    let decision = sample_decision();
    assert!(validate(&decision).is_ok());
}

#[test]
fn validate_rejects_out_of_range_confidence() {
    let mut decision = sample_decision();
    decision.confidence = 1.5;
    let err = validate(&decision).unwrap_err();
    assert!(matches!(err, DecisionValidationError::InvalidConfidence(_)));
    assert_eq!(err, DecisionValidationError::InvalidConfidence(1.5f64.to_bits()));
}

#[test]
fn validate_accepts_boundary_confidence_values() {
    let mut decision = sample_decision();
    for value in [0.0, 1.0] {
        decision.confidence = value;
        decision.alternatives[0].0 = value;
        validate(&decision).expect("boundary values should be valid");
    }
}

#[test]
fn validate_rejects_empty_fields() {
    let mut decision = sample_decision();
    decision.message_ref.provider.clear();
    let err = validate(&decision).unwrap_err();
    assert_eq!(err, DecisionValidationError::EmptyField("message_ref.provider"));
}

#[test]
fn validate_rejects_invalid_alternative_confidence() {
    let mut decision = sample_decision();
    decision.alternatives[0].0 = -0.1;
    let err = validate(&decision).unwrap_err();
    assert!(matches!(err, DecisionValidationError::InvalidAlternativeConfidence { .. }));
    assert_eq!(err, DecisionValidationError::InvalidAlternativeConfidence { index: 0, confidence: (-0.1f64).to_bits() });
}

#[test]
fn validate_rejects_empty_rationale() {
    let mut decision = sample_decision();
    decision.rationale.clear();
    let err = validate(&decision).unwrap_err();
    assert_eq!(err, DecisionValidationError::EmptyField("decision.rationale"));
}

#[test]
fn validate_rejects_missing_alternative_reason() {
    let mut decision = sample_decision();
    decision.alternatives[0].1.clear();
    let err = validate(&decision).unwrap_err();
    assert_eq!(err, DecisionValidationError::EmptyField("considered_alternatives.why_not"));
}

#[test]
fn validate_reports_alternative_index_and_checks_blank_fields_in_order() {
    let mut decision = sample_decision();
    decision.alternatives.push((2.0, "x".into()));
    assert_eq!(
        validate(&decision).unwrap_err(),
        DecisionValidationError::InvalidAlternativeConfidence { index: 1, confidence: 2.0f64.to_bits() }
    );
    decision.message_ref.thread_id = "   ".into();
    decision.rationale.clear();
    assert_eq!(validate(&decision).unwrap_err(), DecisionValidationError::EmptyField("message_ref.thread_id"));
}

#[test]
fn extract_handles_plain_json() {
    let json = r#"{ "a": 1 }"#;
    let extracted = extract_json_from_response(json).unwrap();
    assert_eq!(extracted.trim(), json);
}

#[test]
fn extract_handles_wrapped_text() {
    let response = "prefix text\n{ \"key\": \"value\" }\nsuffix";
    let extracted = extract_json_from_response(response).unwrap();
    assert_eq!(extracted.trim(), "{ \"key\": \"value\" }");
}

#[test]
fn extract_handles_code_fence() {
    let response = "Sure, here you go:\n```json\n{ \"ok\": true }\n```";
    let extracted = extract_json_from_response(response).unwrap();
    assert_eq!(extracted.trim(), "{ \"ok\": true }");
}

#[test]
fn extract_handles_code_fence_without_language_hint() {
    let response = "```\n{\n  \"ok\": true\n}\n```";
    let extracted = extract_json_from_response(response).unwrap();
    assert_eq!(extracted.trim(), "{\n  \"ok\": true\n}");
}

#[test]
fn extract_handles_braces_in_strings() {
    let response = "text {\"msg\": \"value with } brace\"} trailing";
    let extracted = extract_json_from_response(response).unwrap();
    assert_eq!(extracted.trim(), "{\"msg\": \"value with } brace\"}");
}

#[test]
fn extract_errors_without_json() {
    let err = extract_json_from_response("no braces here").unwrap_err();
    assert!(matches!(err, DecisionParseError::NoJsonFound));
}

#[test]
fn extract_errors_on_unbalanced() {
    let err = extract_json_from_response("start { \"a\": 1 ").unwrap_err();
    assert!(matches!(err, DecisionParseError::MalformedJson));
}

#[test]
fn extract_handles_escaped_quotes_and_nested_objects() {
    let response = "x {\"a\": {\"b\": \"q\\\"}\"}, \"c\": 2} tail }";
    let extracted = extract_json_from_response(response).unwrap();
    assert_eq!(extracted, "{\"a\": {\"b\": \"q\\\"}\"}, \"c\": 2}");
    let err = extract_json_from_response("} {").unwrap_err();
    assert!(matches!(err, DecisionParseError::MalformedJson));
}

#[test]
fn parse_from_tool_calls_errors_on_empty() {
    let tool_calls: Vec<ToolCallResult> = vec![];
    let err = decision_tool_call(&tool_calls, "record_decision").unwrap_err();
    assert!(matches!(err, DecisionParseError::NoToolCall));
}

#[test]
fn parse_from_tool_calls_errors_on_wrong_name() {
    let tool_calls = vec![tool_call("wrong_tool")];
    let err = decision_tool_call(&tool_calls, "record_decision").unwrap_err();
    match err {
        DecisionParseError::WrongToolName { expected, actual } => {
            assert_eq!(expected, "record_decision");
            assert_eq!(actual, "wrong_tool");
        }
        other => panic!("unexpected error: {other:?}"),
    }
}

#[test]
fn parse_from_tool_calls_picks_first_matching_call() {
    let tool_calls = vec![tool_call("record_decision"), tool_call("other")];
    let call = decision_tool_call(&tool_calls, "record_decision").expect("first call matches");
    assert_eq!(call.call_id, "call_123");
    assert_eq!(call.fn_name, "record_decision");
}

#[test]
fn action_type_danger_level_classifications() {
    for action in [
        ActionType::ApplyLabel,
        ActionType::RemoveLabel,
        ActionType::MarkRead,
        ActionType::MarkUnread,
        ActionType::Archive,
        ActionType::Trash,
        ActionType::Restore,
        ActionType::Move,
        ActionType::NoAction,
    ] {
        assert_eq!(action.danger_level(), ActionDangerLevel::Safe, "{:?} should be Safe", action);
    }
    for action in [
        ActionType::Star,
        ActionType::Unstar,
        ActionType::Snooze,
        ActionType::AddNote,
        ActionType::CreateTask,
    ] {
        assert_eq!(action.danger_level(), ActionDangerLevel::Reversible, "{:?} should be Reversible", action);
    }
    for action in [ActionType::Delete, ActionType::Forward, ActionType::AutoReply, ActionType::Escalate] {
        assert_eq!(action.danger_level(), ActionDangerLevel::Dangerous, "{:?} should be Dangerous", action);
    }
}

#[test]
fn all_action_types_have_danger_level() {
    let all_actions = ALL_ACTIONS;
    assert_eq!(all_actions.len(), 18);
    for action in all_actions {
        let _ = action.danger_level();
    }
}
