use ashford::llm::prompt::{
    build_directions_section, build_llm_rules_section, build_task_directive, filter_relevant_headers,
    get_body_text, strip_html, truncate_text, PromptBuilder, PromptBuilderConfig, DECISION_TOOL_NAME,
};
use ashford::llm::types::ChatRole;
use ashford::messages::{Header, Mailbox, Message};
use ashford::rules::types::{Direction, LlmRule, RuleScope};

fn sample_message() -> Message {
    Message {
        id: "msg_1".into(),
        account_id: "acc_1".into(),
        thread_id: "thr_1".into(),
        provider_message_id: "prov".into(),
        from_email: Some("alice@example.com".into()),
        from_name: Some("Alice".into()),
        to: vec![
            Mailbox { email: "bob@example.com".into(), name: Some("Bob".into()) },
            Mailbox { email: "carol@example.com".into(), name: None },
        ],
        cc: vec![],
        bcc: vec![],
        subject: Some("Weekly newsletter and updates".into()),
        snippet: Some("Short snippet".into()),
        received_at: Some(1_700_000_000_000),
        internal_date: None,
        labels: vec!["INBOX".into(), "STARRED".into()],
        headers: vec![
            Header { name: "List-Id".into(), value: "<list.project>".into() },
            Header { name: "X-Extra".into(), value: "ignored".into() },
        ],
        body_plain: Some("Hello world".into()),
        body_html: Some("<p>Hello <strong>world</strong></p>".into()),
        raw_json: serde_json::Value::Null,
        created_at: 1_700_000_000_000,
        updated_at: 1_700_000_000_000,
        org_id: 1,
        user_id: 1,
    }
}

fn direction(id: &str, content: &str) -> Direction {
    Direction {
        id: id.into(),
        org_id: 1,
        user_id: None,
        content: content.into(),
        enabled: true,
        created_at: 0,
        updated_at: 0,
    }
}

fn llm_rule(id: &str, name: &str, description: Option<&str>, text: &str) -> LlmRule {
    LlmRule {
        id: id.into(),
        org_id: 1,
        user_id: None,
        name: name.into(),
        description: description.map(|d| d.to_string()),
        scope: RuleScope::Global,
        scope_ref: None,
        rule_text: text.into(),
        enabled: true,
        metadata_json: serde_json::Value::Object(serde_json::Map::new()),
        created_at: 0,
        updated_at: 0,
    }
}

#[test]
fn directions_section_formats_numbered_list() {
    let directions = vec![direction("d1", "First"), direction("d2", "Second")];
    let formatted = build_directions_section(&directions);
    assert!(formatted.starts_with("DIRECTIONS:\n1. First\n2. Second"));
    let empty = build_directions_section(&vec![]);
    assert!(empty.is_empty());
}

#[test]
fn llm_rules_section_handles_descriptions() {
    let rules = vec![
        llm_rule("r1", "Rule One", Some("Describe"), "Do X"),
        llm_rule("r2", "Rule Two", None, "Do Y"),
    ];
    let formatted = build_llm_rules_section(&rules);
    assert!(formatted.contains("LLM RULE: Rule One\nDescribe\nDo X"));
    assert!(formatted.contains("LLM RULE: Rule Two\nDo Y"));
    let empty = build_llm_rules_section(&vec![]);
    assert!(empty.is_empty());
}

#[test]
fn llm_rules_section_skips_blank_description_and_separates_rules() {
    let rules = vec![llm_rule("r1", "A", Some("  "), "x"), llm_rule("r2", "B", None, "y")];
    assert_eq!(build_llm_rules_section(&rules), "LLM RULE: A\nx\n\nLLM RULE: B\ny");
}

#[test]
fn truncate_text_respects_boundaries() {
    let text = "This is a long body that should be truncated";
    let truncated = truncate_text(text, 20);
    assert!(truncated.ends_with("..."));
    assert!(truncated.len() <= 20);
    let short = truncate_text("short", 20);
    assert_eq!(short, "short");
}

#[test]
fn truncate_text_handles_small_limits_and_zero() {
    assert_eq!(truncate_text("anything", 0), "");
    assert_eq!(truncate_text("abcdef", 2), "..");
    let truncated = truncate_text("abcdef", 3);
    assert_eq!(truncated, "...");
}

#[test]
fn truncate_text_cuts_at_last_space_and_counts_characters() {
    assert_eq!(truncate_text("This is a long body that should be truncated", 20), "This is a long...");
    assert_eq!(truncate_text("abcdefghij", 6), "abc...");
    assert_eq!(truncate_text("ééééé", 5), "ééééé");
    assert_eq!(truncate_text("éééééé", 5), "éé...");
}

#[test]
fn strip_html_removes_tags_and_preserves_text() {
    let html = r#"
            <html>
                <head><style>.hidden { display:none; }</style></head>
                <body>
                    <p>Hello&nbsp;<strong>World</strong></p>
                    <table><tr><td>Cell</td></tr></table>
                    <script>alert('x');</script>
                </body>
            </html>
        "#;
    let text = strip_html(html);
    assert!(text.contains("Hello"));
    assert!(text.contains("World"));
    assert!(text.contains("Cell"));
    assert!(!text.contains("alert('x')"));
}

#[test]
fn strip_html_trims_lines() {
    let text = strip_html("<p>one</p><p>two</p>");
    assert!(!text.starts_with(char::is_whitespace));
    assert!(!text.ends_with(char::is_whitespace));
    for line in text.lines() {
        assert_eq!(line, line.trim_end());
    }
}

#[test]
fn get_body_text_prefers_plain() {
    let mut message = sample_message();
    let body = get_body_text(&message, 100).unwrap();
    assert_eq!(body, "Hello world");
    message.body_plain = None;
    let body_html = get_body_text(&message, 100).unwrap();
    assert!(body_html.contains("Hello"));
    message.body_html = None;
    assert!(get_body_text(&message, 100).is_none());
}

#[test]
fn filter_relevant_headers_whitelists_expected_names() {
    let headers = vec![
        Header { name: "List-Id".into(), value: "list".into() },
        Header { name: "Return-Path".into(), value: "bounce".into() },
        Header { name: "X-Unused".into(), value: "ignored".into() },
    ];
    let filtered = filter_relevant_headers(&headers);
    assert_eq!(filtered.len(), 2);
    assert_eq!(filtered[0].name, "List-Id");
    assert_eq!(filtered[1].name, "Return-Path");
}

#[test]
fn filter_relevant_headers_is_case_insensitive() {
    let headers = vec![
        Header { name: "x-priority".into(), value: "high".into() },
        Header { name: "X-MAILER".into(), value: "mailer".into() },
    ];
    let filtered = filter_relevant_headers(&headers);
    assert_eq!(filtered.len(), 2);
    assert_eq!(filtered[0].value, "high");
    assert_eq!(filtered[1].value, "mailer");
}

#[test]
fn message_context_includes_core_fields() {
    let builder = PromptBuilder::new();
    let context = builder.build_message_context(&sample_message(), None);
    assert!(context.contains("MESSAGE CONTEXT:"));
    assert!(context.contains("From: Alice <alice@example.com>"));
    assert!(context.contains("To: Bob <bob@example.com>, carol@example.com"));
    assert!(context.contains("Subject: Weekly newsletter"));
    assert!(context.contains("Snippet: Short snippet"));
    assert!(context.contains("Headers:"));
    assert!(context.contains("Labels: [\"INBOX\",\"STARRED\"]"));
    assert!(context.contains("Body:"));
}

#[test]
fn message_context_lists_lines_in_order() {
    let builder = PromptBuilder::new();
    let context = builder.build_message_context(&sample_message(), None);
    assert_eq!(
        context,
        "MESSAGE CONTEXT:\nFrom: Alice <alice@example.com>\nTo: Bob <bob@example.com>, carol@example.com\n\
         Subject: Weekly newsletter and updates\nSnippet: Short snippet\nHeaders:\n- List-Id: <list.project>\n\
         Labels: [\"INBOX\",\"STARRED\"]\nBody:\nHello world"
    );
}

#[test]
fn message_context_handles_missing_optional_fields() {
    let builder = PromptBuilder::new();
    let mut msg = sample_message();
    msg.from_email = None;
    msg.from_name = None;
    msg.to.clear();
    msg.subject = None;
    msg.snippet = None;
    msg.body_plain = None;
    msg.body_html = None;
    msg.headers.clear();
    msg.labels.clear();
    let context = builder.build_message_context(&msg, None);
    assert!(context.contains("From: (unknown)"));
    assert!(context.contains("To: (none)"));
    assert!(!context.contains("Cc:"));
    assert!(!context.contains("Bcc:"));
    assert!(!context.contains("Subject:"));
    assert!(!context.contains("Snippet:"));
    assert!(!context.contains("Body:"));
    assert!(context.contains("Labels: []"));
}

#[test]
fn build_respects_custom_limits_for_subject_and_body() {
    let builder = PromptBuilder::with_config(PromptBuilderConfig {
        max_body_length: Some(12),
        max_subject_length: Some(10),
    });
    let mut msg = sample_message();
    msg.subject = Some("Extremely long subject line for testing truncation".into());
    msg.body_plain = Some("Body content that will be truncated".into());
    let ctx = builder.build_message_context(&msg, None);
    let subject_line = ctx.lines().find(|l| l.starts_with("Subject:")).expect("subject line present");
    assert!(subject_line.len() <= "Subject: ".len() + 10);
    assert!(subject_line.ends_with("..."));
    let body_line = ctx.lines().skip_while(|l| *l != "Body:").nth(1).expect("body text line");
    assert!(body_line.len() <= 12);
    assert!(body_line.ends_with("..."));
}

#[test]
fn get_body_text_truncates_html_fallback() {
    let mut msg = sample_message();
    msg.body_plain = None;
    msg.body_html = Some("<p>Hello world from <strong>HTML</strong> body</p>".into());
    let body = get_body_text(&msg, 8).expect("body");
    assert_eq!(body, "Hello...");
}

#[test]
fn task_directive_lists_all_actions() {
    let directive = build_task_directive();
    for action in [
        "apply_label",
        "mark_read",
        "mark_unread",
        "archive",
        "delete",
        "move",
        "star",
        "unstar",
        "forward",
        "auto_reply",
        "create_task",
        "snooze",
        "add_note",
        "escalate",
        "none",
    ] {
        assert!(directive.contains(action), "directive missing action {}", action);
    }
    assert!(directive.starts_with("TASK:\n"));
    assert!(directive.contains(DECISION_TOOL_NAME));
}

#[test]
fn build_omits_empty_directions_and_rules_sections() {
    let builder = PromptBuilder::new();
    let messages = builder.build(&sample_message(), &vec![], &vec![], None);
    assert_eq!(messages.len(), 2);
    let user_content = &messages[1].content;
    assert!(!user_content.contains("DIRECTIONS:"));
    assert!(!user_content.contains("LLM RULE:"));
    assert!(user_content.contains("MESSAGE CONTEXT:"));
    assert!(user_content.contains("TASK:"));
}

#[test]
fn build_returns_two_messages_with_sections() {
    let builder = PromptBuilder::new();
    let directions = vec![direction("d1", "Be safe")];
    let rules = vec![llm_rule("r1", "Newsletter", None, "If newsletter, archive")];
    let messages = builder.build(&sample_message(), &directions, &rules, None);
    assert_eq!(messages.len(), 2);
    assert_eq!(messages[0].role, ChatRole::System);
    assert_eq!(messages[1].role, ChatRole::User);
    assert!(messages[1].content.contains("DIRECTIONS:"));
    assert!(messages[1].content.contains("LLM RULE: Newsletter"));
    assert!(messages[1].content.contains("MESSAGE CONTEXT:"));
    assert!(messages[1].content.contains("TASK:"));
    assert!(messages[1].content.starts_with("DIRECTIONS:\n1. Be safe\n\nLLM RULE: Newsletter"));
}

#[test]
fn prompt_builder_includes_layers_and_task_directive() {
    let builder = PromptBuilder::new();
    let mut message = sample_message();
    message.headers = vec![Header { name: "List-Id".into(), value: "<news.list>".into() }];
    let prompt = builder.build(
        &message,
        &vec![direction("d1", "Never delete newsletters")],
        &vec![llm_rule("r1", "Newsletter rule", Some("Handle newsletters safely"), "Archive newsletters unless urgent")],
        None,
    );
    assert_eq!(prompt.len(), 2);
    assert_eq!(prompt[0].role, ChatRole::System);
    assert_eq!(prompt[1].role, ChatRole::User);
    assert!(prompt[1].content.contains("DIRECTIONS:"));
    assert!(prompt[1].content.contains("LLM RULE: Newsletter rule"));
    assert!(prompt[1].content.contains("MESSAGE CONTEXT:"));
    assert!(prompt[1].content.contains("TASK:"));
    assert!(prompt[1].content.contains("record_decision"));
    assert!(prompt[0].content.contains("record_decision"));
}

#[test]
fn builder_config_defaults() {
    let config = PromptBuilderConfig::default();
    assert!(config.max_body_length.is_none() && config.max_subject_length.is_none());
    let builder = PromptBuilder::with_config(config);
    let mut msg = sample_message();
    msg.body_plain = Some("x".repeat(9000));
    let ctx = builder.build_message_context(&msg, None);
    let body_line = ctx.lines().skip_while(|l| *l != "Body:").nth(1).expect("body text line");
    assert_eq!(body_line.chars().count(), 8000);
}

#[test]
fn message_context_escapes_labels_as_json() {
    let builder = PromptBuilder::new();
    let mut msg = sample_message();
    msg.labels = vec![
        "say \"hi\"".into(),
        "back\\slash".into(),
        "tab\tline\nend\r".into(),
        "bell\u{7}\u{8}\u{c}\u{1f}".into(),
        "caf\u{e9}/\u{7f}".into(),
    ];
    let context = builder.build_message_context(&msg, None);
    let expected = "Labels: [\"say \\\"hi\\\"\",\"back\\\\slash\",\"tab\\tline\\nend\\r\",\
                    \"bell\\u0007\\b\\f\\u001f\",\"caf\u{e9}/\u{7f}\"]";
    assert!(context.contains(expected), "{context}");
}
