use ashford::messages::{Header, Mailbox, Message};
use ashford::rules::conditions::{
    checked_condition, evaluate, validate_condition, Condition, ConditionError, EvaluationContext, LeafCondition, LogicalCondition,
    LogicalOperator,
};

fn sample_message() -> Message {
    Message {
        id: "msg1".into(),
        account_id: "acct1".into(),
        thread_id: "thread1".into(),
        provider_message_id: "provider1".into(),
        from_email: Some("alice@amazon.com".into()),
        from_name: Some("Alice".into()),
        to: vec![Mailbox {
            email: "bob@example.com".into(),
            name: Some("Bob".into()),
        }],
        cc: vec![],
        bcc: vec![],
        subject: Some("Your package has shipped".into()),
        snippet: None,
        received_at: Some(1_700_000_000_000),
        internal_date: Some(1_700_000_000_000),
        labels: vec!["INBOX".into(), "IMPORTANT".into()],
        headers: vec![
            Header {
                name: "Subject".into(),
                value: "Your package has shipped".into(),
            },
            Header {
                name: "X-Custom".into(),
                value: "Value".into(),
            },
        ],
        body_plain: None,
        body_html: None,
        raw_json: serde_json::Value::Object(serde_json::Map::new()),
        created_at: 1_700_000_000_000,
        updated_at: 1_700_000_000_000,
        org_id: 1,
        user_id: 1,
    }
}

fn evaluate_simple(condition: Condition, message: &Message) -> Result<bool, ConditionError> {
    let mut ctx = EvaluationContext::new();
    evaluate(&condition, message, &mut ctx)
}

#[test]
fn sender_email_exact_match() {
    let mut msg = sample_message();
    let condition = Condition::Leaf(LeafCondition::SenderEmail {
        value: "alice@amazon.com".into(),
    });
    assert!(evaluate_simple(condition, &msg).unwrap());

    msg.from_email = Some("ALICE@AMAZON.COM".into());
    let condition = Condition::Leaf(LeafCondition::SenderEmail {
        value: "alice@amazon.com".into(),
    });
    assert!(evaluate_simple(condition, &msg).unwrap());
}

#[test]
fn sender_email_wildcard() {
    let msg = sample_message();
    let condition = Condition::Leaf(LeafCondition::SenderEmail {
        value: "*@amazon.com".into(),
    });
    assert!(evaluate_simple(condition, &msg).unwrap());
}

#[test]
fn sender_email_wildcard_case_insensitive_domain() {
    let mut msg = sample_message();
    msg.from_email = Some("alice@AMAZON.com".into());
    let condition = Condition::Leaf(LeafCondition::SenderEmail {
        value: "*@amazon.COM".into(),
    });
    assert!(evaluate_simple(condition, &msg).unwrap());
}

#[test]
fn sender_email_no_match() {
    let msg = sample_message();
    let condition = Condition::Leaf(LeafCondition::SenderEmail {
        value: "*@example.com".into(),
    });
    assert!(!evaluate_simple(condition, &msg).unwrap());
}

#[test]
fn sender_email_missing() {
    let mut msg = sample_message();
    msg.from_email = None;
    let condition = Condition::Leaf(LeafCondition::SenderEmail {
        value: "alice@amazon.com".into(),
    });
    assert!(!evaluate_simple(condition, &msg).unwrap());
}

#[test]
fn sender_domain_matches() {
    let msg = sample_message();
    let condition = Condition::Leaf(LeafCondition::SenderDomain {
        value: "Amazon.com".into(),
    });
    assert!(evaluate_simple(condition, &msg).unwrap());
}

#[test]
fn sender_domain_no_match() {
    let msg = sample_message();
    let condition = Condition::Leaf(LeafCondition::SenderDomain {
        value: "example.com".into(),
    });
    assert!(!evaluate_simple(condition, &msg).unwrap());
}

#[test]
fn sender_domain_malformed_email() {
    let mut msg = sample_message();
    msg.from_email = Some("invalid-email".into());
    let condition = Condition::Leaf(LeafCondition::SenderDomain {
        value: "invalid-email".into(),
    });
    assert!(!evaluate_simple(condition, &msg).unwrap());
}

#[test]
fn subject_contains_match() {
    let msg = sample_message();
    let condition = Condition::Leaf(LeafCondition::SubjectContains {
        value: "Package".into(),
    });
    assert!(evaluate_simple(condition, &msg).unwrap());
}

#[test]
fn subject_contains_no_match() {
    let msg = sample_message();
    let condition = Condition::Leaf(LeafCondition::SubjectContains {
        value: "delivered".into(),
    });
    assert!(!evaluate_simple(condition, &msg).unwrap());
}

#[test]
fn subject_contains_missing() {
    let mut msg = sample_message();
    msg.subject = None;
    let condition = Condition::Leaf(LeafCondition::SubjectContains {
        value: "package".into(),
    });
    assert!(!evaluate_simple(condition, &msg).unwrap());
}

#[test]
fn subject_regex_match() {
    let msg = sample_message();
    let condition = Condition::Leaf(LeafCondition::SubjectRegex {
        value: "(?i)package.*shipped".into(),
    });
    assert!(evaluate_simple(condition, &msg).unwrap());
}

#[test]
fn subject_regex_no_match() {
    let msg = sample_message();
    let condition = Condition::Leaf(LeafCondition::SubjectRegex {
        value: "delivered".into(),
    });
    assert!(!evaluate_simple(condition, &msg).unwrap());
}

#[test]
fn subject_regex_missing_subject() {
    let mut msg = sample_message();
    msg.subject = None;
    let condition = Condition::Leaf(LeafCondition::SubjectRegex {
        value: "package".into(),
    });
    assert!(!evaluate_simple(condition, &msg).unwrap());
}

#[test]
fn subject_regex_invalid() {
    let msg = sample_message();
    let condition = Condition::Leaf(LeafCondition::SubjectRegex {
        value: "(unclosed".into(),
    });
    let mut ctx = EvaluationContext::new();
    let result = evaluate(&condition, &msg, &mut ctx);
    assert!(matches!(result, Err(ConditionError::InvalidRegex { .. })));
}

#[test]
fn header_match_found() {
    let msg = sample_message();
    let condition = Condition::Leaf(LeafCondition::HeaderMatch {
        header: "Subject".into(),
        pattern: "package".into(),
    });
    assert!(evaluate_simple(condition, &msg).unwrap());
}

#[test]
fn header_match_header_not_found() {
    let msg = sample_message();
    let condition = Condition::Leaf(LeafCondition::HeaderMatch {
        header: "Missing".into(),
        pattern: ".*".into(),
    });
    assert!(!evaluate_simple(condition, &msg).unwrap());
}

#[test]
fn header_match_value_no_match() {
    let msg = sample_message();
    let condition = Condition::Leaf(LeafCondition::HeaderMatch {
        header: "Subject".into(),
        pattern: "^delivered$".into(),
    });
    assert!(!evaluate_simple(condition, &msg).unwrap());
}

#[test]
fn header_match_case_insensitive_name() {
    let msg = sample_message();
    let condition = Condition::Leaf(LeafCondition::HeaderMatch {
        header: "subject".into(),
        pattern: "shipped".into(),
    });
    assert!(evaluate_simple(condition, &msg).unwrap());
}

#[test]
fn header_match_duplicate_headers() {
    let mut msg = sample_message();
    // Email headers can be duplicated (e.g., Received headers)
    msg.headers = vec![
        Header {
            name: "From".into(),
            value: "Alice <alice@amazon.com>".into(),
        },
        Header {
            name: "X-Tag".into(),
            value: "first".into(),
        },
        Header {
            name: "X-Tag".into(),
            value: "second".into(),
        },
    ];

    // Should match the first X-Tag header
    let first_match = Condition::Leaf(LeafCondition::HeaderMatch {
        header: "X-Tag".into(),
        pattern: "first".into(),
    });
    assert!(evaluate_simple(first_match, &msg).unwrap());

    // Should also match the second X-Tag header
    let second_match = Condition::Leaf(LeafCondition::HeaderMatch {
        header: "X-Tag".into(),
        pattern: "second".into(),
    });
    assert!(evaluate_simple(second_match, &msg).unwrap());

    // Missing header should not match
    let missing_header = Condition::Leaf(LeafCondition::HeaderMatch {
        header: "x-not-present".into(),
        pattern: ".*".into(),
    });
    assert!(!evaluate_simple(missing_header, &msg).unwrap());
}

#[test]
fn label_present_found() {
    let msg = sample_message();
    let condition = Condition::Leaf(LeafCondition::LabelPresent {
        value: "INBOX".into(),
    });
    assert!(evaluate_simple(condition, &msg).unwrap());
}

#[test]
fn label_present_not_found() {
    let msg = sample_message();
    let condition = Condition::Leaf(LeafCondition::LabelPresent {
        value: "SPAM".into(),
    });
    assert!(!evaluate_simple(condition, &msg).unwrap());
}

#[test]
fn label_present_empty_labels() {
    let mut msg = sample_message();
    msg.labels.clear();
    let condition = Condition::Leaf(LeafCondition::LabelPresent {
        value: "INBOX".into(),
    });
    assert!(!evaluate_simple(condition, &msg).unwrap());
}

#[test]
fn and_all_true() {
    let msg = sample_message();
    let condition = Condition::Logical(LogicalCondition {
        op: LogicalOperator::And,
        children: vec![
            Condition::Leaf(LeafCondition::SenderDomain {
                value: "amazon.com".into(),
            }),
            Condition::Leaf(LeafCondition::SubjectContains {
                value: "package".into(),
            }),
        ],
    });
    assert!(evaluate_simple(condition, &msg).unwrap());
}

#[test]
fn and_one_false() {
    let msg = sample_message();
    let condition = Condition::Logical(LogicalCondition {
        op: LogicalOperator::And,
        children: vec![
            Condition::Leaf(LeafCondition::SenderDomain {
                value: "amazon.com".into(),
            }),
            Condition::Leaf(LeafCondition::SubjectContains {
                value: "delivered".into(),
            }),
        ],
    });
    assert!(!evaluate_simple(condition, &msg).unwrap());
}

#[test]
fn and_empty_children() {
    let msg = sample_message();
    let condition = Condition::Logical(LogicalCondition {
        op: LogicalOperator::And,
        children: vec![],
    });
    let result = evaluate_simple(condition, &msg);
    assert!(matches!(result, Err(ConditionError::EmptyTree)));
}

#[test]
fn or_one_true() {
    let msg = sample_message();
    let condition = Condition::Logical(LogicalCondition {
        op: LogicalOperator::Or,
        children: vec![
            Condition::Leaf(LeafCondition::SubjectContains {
                value: "delivered".into(),
            }),
            Condition::Leaf(LeafCondition::SubjectContains {
                value: "shipped".into(),
            }),
        ],
    });
    assert!(evaluate_simple(condition, &msg).unwrap());
}

#[test]
fn or_all_false() {
    let msg = sample_message();
    let condition = Condition::Logical(LogicalCondition {
        op: LogicalOperator::Or,
        children: vec![
            Condition::Leaf(LeafCondition::SubjectContains {
                value: "delivered".into(),
            }),
            Condition::Leaf(LeafCondition::SubjectContains {
                value: "tomorrow".into(),
            }),
        ],
    });
    assert!(!evaluate_simple(condition, &msg).unwrap());
}

#[test]
fn or_empty_children() {
    let msg = sample_message();
    let condition = Condition::Logical(LogicalCondition {
        op: LogicalOperator::Or,
        children: vec![],
    });
    let result = evaluate_simple(condition, &msg);
    assert!(matches!(result, Err(ConditionError::EmptyTree)));
}

#[test]
fn not_inverts_true() {
    let msg = sample_message();
    let condition = Condition::Logical(LogicalCondition {
        op: LogicalOperator::Not,
        children: vec![Condition::Leaf(LeafCondition::SubjectContains {
            value: "package".into(),
        })],
    });
    assert!(!evaluate_simple(condition, &msg).unwrap());
}

#[test]
fn not_inverts_false() {
    let msg = sample_message();
    let condition = Condition::Logical(LogicalCondition {
        op: LogicalOperator::Not,
        children: vec![Condition::Leaf(LeafCondition::SubjectContains {
            value: "delivered".into(),
        })],
    });
    assert!(evaluate_simple(condition, &msg).unwrap());
}

#[test]
fn not_wrong_child_count() {
    let msg = sample_message();
    let condition = Condition::Logical(LogicalCondition {
        op: LogicalOperator::Not,
        children: vec![],
    });
    let result = evaluate_simple(condition, &msg);
    assert!(matches!(
        result,
        Err(ConditionError::InvalidNotChildCount(0))
    ));
}

#[test]
fn not_with_multiple_children_errors() {
    let msg = sample_message();
    let condition = Condition::Logical(LogicalCondition {
        op: LogicalOperator::Not,
        children: vec![
            Condition::Leaf(LeafCondition::SubjectContains {
                value: "package".into(),
            }),
            Condition::Leaf(LeafCondition::SenderDomain {
                value: "amazon.com".into(),
            }),
        ],
    });
    let result = evaluate_simple(condition, &msg);
    assert!(matches!(
        result,
        Err(ConditionError::InvalidNotChildCount(2))
    ));
}

#[test]
fn nested_and_or() {
    let msg = sample_message();
    let condition = Condition::Logical(LogicalCondition {
        op: LogicalOperator::And,
        children: vec![
            Condition::Leaf(LeafCondition::SenderDomain {
                value: "amazon.com".into(),
            }),
            Condition::Logical(LogicalCondition {
                op: LogicalOperator::Or,
                children: vec![
                    Condition::Leaf(LeafCondition::SubjectContains {
                        value: "shipped".into(),
                    }),
                    Condition::Leaf(LeafCondition::SubjectContains {
                        value: "delivered".into(),
                    }),
                ],
            }),
        ],
    });
    assert!(evaluate_simple(condition, &msg).unwrap());
}

#[test]
fn nested_or_and() {
    let msg = sample_message();
    let condition = Condition::Logical(LogicalCondition {
        op: LogicalOperator::Or,
        children: vec![
            Condition::Logical(LogicalCondition {
                op: LogicalOperator::And,
                children: vec![
                    Condition::Leaf(LeafCondition::SenderDomain {
                        value: "example.com".into(),
                    }),
                    Condition::Leaf(LeafCondition::SubjectContains {
                        value: "shipped".into(),
                    }),
                ],
            }),
            Condition::Logical(LogicalCondition {
                op: LogicalOperator::And,
                children: vec![
                    Condition::Leaf(LeafCondition::SenderDomain {
                        value: "amazon.com".into(),
                    }),
                    Condition::Leaf(LeafCondition::SubjectContains {
                        value: "package".into(),
                    }),
                ],
            }),
        ],
    });
    assert!(evaluate_simple(condition, &msg).unwrap());
}

#[test]
fn deeply_nested() {
    let msg = sample_message();
    let condition = Condition::Logical(LogicalCondition {
        op: LogicalOperator::And,
        children: vec![
            Condition::Logical(LogicalCondition {
                op: LogicalOperator::Or,
                children: vec![Condition::Logical(LogicalCondition {
                    op: LogicalOperator::And,
                    children: vec![Condition::Leaf(LeafCondition::SubjectContains {
                        value: "package".into(),
                    })],
                })],
            }),
            Condition::Leaf(LeafCondition::SenderDomain {
                value: "amazon.com".into(),
            }),
        ],
    });
    assert!(evaluate_simple(condition, &msg).unwrap());
}

#[test]
fn regex_cache_gives_same_answers() {
    let msg = sample_message();
    let mut ctx = EvaluationContext::new();
    let condition = Condition::Leaf(LeafCondition::SubjectRegex {
        value: "ship+ed$".into(),
    });
    assert!(evaluate(&condition, &msg, &mut ctx).unwrap());
    assert!(evaluate(&condition, &msg, &mut ctx).unwrap());
    let header = Condition::Leaf(LeafCondition::HeaderMatch {
        header: "x-custom".into(),
        pattern: "ship+ed$".into(),
    });
    assert!(!evaluate(&header, &msg, &mut ctx).unwrap());
}

#[test]
fn validate_condition_reports_structural_errors() {
    let empty = Condition::Logical(LogicalCondition {
        op: LogicalOperator::Or,
        children: vec![],
    });
    assert!(matches!(validate_condition(&empty), Err(ConditionError::EmptyTree)));
    let bad_not = Condition::Logical(LogicalCondition {
        op: LogicalOperator::Not,
        children: vec![
            Condition::Leaf(LeafCondition::LabelPresent { value: "A".into() }),
            Condition::Leaf(LeafCondition::LabelPresent { value: "B".into() }),
        ],
    });
    assert!(matches!(validate_condition(&bad_not), Err(ConditionError::InvalidNotChildCount(2))));
    let bad_regex = Condition::Leaf(LeafCondition::SubjectRegex { value: "(unclosed".into() });
    assert!(validate_condition(&bad_regex).is_ok(), "leaves are not checked before evaluation");
    let fine = Condition::Logical(LogicalCondition {
        op: LogicalOperator::And,
        children: vec![Condition::Leaf(LeafCondition::SenderDomain { value: "amazon.com".into() })],
    });
    assert!(validate_condition(&fine).is_ok());
}

#[test]
fn double_negation_gives_back_the_inner_answer() {
    let msg = sample_message();
    let inner = || Condition::Leaf(LeafCondition::SubjectContains { value: "PACKAGE".into() });
    let wrapped = Condition::Logical(LogicalCondition {
        op: LogicalOperator::Not,
        children: vec![Condition::Logical(LogicalCondition {
            op: LogicalOperator::Not,
            children: vec![inner()],
        })],
    });
    assert_eq!(evaluate_simple(wrapped, &msg).unwrap(), evaluate_simple(inner(), &msg).unwrap());
}

#[test]
fn complex_tree() {
    let msg = sample_message();
    let condition = Condition::Logical(LogicalCondition {
        op: LogicalOperator::And,
        children: vec![
            Condition::Leaf(LeafCondition::SenderDomain { value: "amazon.com".into() }),
            Condition::Logical(LogicalCondition {
                op: LogicalOperator::Or,
                children: vec![
                    Condition::Leaf(LeafCondition::SubjectContains { value: "shipped".into() }),
                    Condition::Leaf(LeafCondition::SubjectContains { value: "delivered".into() }),
                ],
            }),
        ],
    });
    assert!(validate_condition(&condition).is_ok());
    assert!(evaluate_simple(condition, &msg).unwrap());
}

#[test]
fn parse_empty_logical_tree_errors() {
    let condition = Condition::Logical(LogicalCondition { op: LogicalOperator::And, children: vec![] });
    assert!(matches!(validate_condition(&condition), Err(ConditionError::EmptyTree)));
}

#[test]
fn parse_nested_empty_logical_tree_errors() {
    let condition = Condition::Logical(LogicalCondition {
        op: LogicalOperator::And,
        children: vec![Condition::Logical(LogicalCondition { op: LogicalOperator::Or, children: vec![] })],
    });
    assert!(matches!(validate_condition(&condition), Err(ConditionError::EmptyTree)));
}

fn json_error() -> serde_json::Error {
    serde_json::from_str::<serde_json::Value>("{").unwrap_err()
}

#[test]
fn parse_empty_tree_errors() {
    let decoded = Err(json_error());
    assert!(matches!(checked_condition(true, decoded), Err(ConditionError::EmptyTree)));
}

#[test]
fn checked_condition_reports_json_and_structure_errors() {
    assert!(matches!(checked_condition(false, Err(json_error())), Err(ConditionError::InvalidJson(_))));
    let leaf = Condition::Leaf(LeafCondition::LabelPresent { value: "INBOX".into() });
    assert!(matches!(
        checked_condition(false, Ok(leaf)),
        Ok(Condition::Leaf(LeafCondition::LabelPresent { ref value })) if value == "INBOX"
    ));
    let empty = Condition::Logical(LogicalCondition { op: LogicalOperator::Or, children: vec![] });
    assert!(matches!(checked_condition(false, Ok(empty)), Err(ConditionError::EmptyTree)));
    let leaf = Condition::Leaf(LeafCondition::LabelPresent { value: "INBOX".into() });
    assert!(matches!(checked_condition(true, Ok(leaf)), Err(ConditionError::EmptyTree)));
}
