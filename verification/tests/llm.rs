use ashford::llm::error::{LLMError, RateLimitInfo};
use ashford::llm::mock::MockLLMClient;
use ashford::llm::provider::{
    completion_from_reply, map_failed_status, map_transport_error, namespaced_model, parse_epoch_reset_at, parse_retry_after,
    parse_retry_after_at, retry_after_ms_from_headers_at, usage_tokens,
};
use ashford::llm::repository::{new_llm_call, LlmCallContext};
use ashford::llm::types::CompletionResponse;

fn response(content: &str, model: &str, input: u32, output: u32, latency: u64) -> CompletionResponse {
    CompletionResponse {
        content: content.into(),
        model: model.into(),
        input_tokens: input,
        output_tokens: output,
        latency_ms: latency,
        tool_calls: vec![],
    }
}

#[test]
fn display_messages_match_expected_format() {
    assert_eq!(LLMError::RateLimited(RateLimitInfo::new(None)).to_string(), "rate limited");
    assert_eq!(
        LLMError::RateLimited(RateLimitInfo::new(Some(1500))).to_string(),
        "rate limited (retry after 1500ms)"
    );
    assert_eq!(LLMError::AuthenticationFailed.to_string(), "authentication failed");
    assert_eq!(LLMError::InvalidRequest("bad payload".into()).to_string(), "invalid request: bad payload");
    assert_eq!(LLMError::ServerError("500".into()).to_string(), "server error: 500");
    assert_eq!(LLMError::Timeout.to_string(), "timeout");
    assert_eq!(LLMError::ParseError("json".into()).to_string(), "parse error: json");
    assert_eq!(LLMError::ProviderError("transient".into()).to_string(), "provider error: transient");
}

#[test]
fn rate_limit_info_display_is_suffix_only() {
    assert_eq!(RateLimitInfo::new(None).to_string(), "");
    assert_eq!(RateLimitInfo::new(Some(0)).to_string(), " (retry after 0ms)");
}

#[test]
fn namespaced_model_handles_provider_casing() {
    let model = namespaced_model("OpenAI", "gpt-4o-mini");
    assert_eq!(model, "openai::gpt-4o-mini");
}

#[test]
fn namespaced_model_without_provider_returns_model() {
    let model = namespaced_model("", "gpt-4o-mini");
    assert_eq!(model, "gpt-4o-mini");
}

#[test]
fn usage_tokens_defaults_and_clamps() {
    assert_eq!(usage_tokens(None, None), (0, 0));
    assert_eq!(usage_tokens(Some(-5), Some(7)), (0, 7));
}

#[test]
fn map_webc_error_classifies_status_codes() {
    assert!(matches!(
        map_failed_status(429, "429 Too Many Requests".into(), None),
        LLMError::RateLimited(_)
    ));
    assert!(matches!(map_failed_status(403, "403 Forbidden".into(), None), LLMError::RateLimited(_)));
    assert!(matches!(map_failed_status(400, "400 Bad Request".into(), None), LLMError::InvalidRequest(_)));
    assert!(matches!(
        map_failed_status(500, "500 Internal Server Error".into(), None),
        LLMError::ServerError(_)
    ));
}

#[test]
fn failed_status_keeps_retry_delay_and_status_text() {
    assert_eq!(
        map_failed_status(429, "429".into(), Some(2000)),
        LLMError::RateLimited(RateLimitInfo::new(Some(2000)))
    );
    assert_eq!(map_failed_status(401, "401".into(), None), LLMError::AuthenticationFailed);
    assert_eq!(map_failed_status(404, "404 Not Found".into(), None), LLMError::InvalidRequest("404 Not Found".into()));
    assert_eq!(map_failed_status(503, "503".into(), None), LLMError::ServerError("503".into()));
    assert_eq!(map_failed_status(302, "302 Found".into(), None), LLMError::ProviderError("302 Found".into()));
    assert_eq!(map_transport_error(true, "t".into()), LLMError::Timeout);
    assert_eq!(map_transport_error(false, "reset".into()), LLMError::ProviderError("reset".into()));
}

#[test]
fn retry_after_reads_seconds_and_dates() {
    assert_eq!(parse_retry_after_at(" 2 ", 0), Some(2000));
    assert_eq!(parse_retry_after_at("18446744073709551615", 0), Some(u64::MAX));
    assert_eq!(parse_retry_after_at("soon", 0), None);
    // Thu, 01 Jan 1970 00:01:40 GMT is 100 000 ms after the epoch.
    assert_eq!(parse_retry_after_at("Thu, 01 Jan 1970 00:01:40 GMT", 40_000), Some(60_000));
    assert_eq!(parse_retry_after_at("Thu, 01 Jan 1970 00:01:40 GMT", 100_000), None);
    assert_eq!(parse_retry_after("3"), Some(3000));
}

#[test]
fn epoch_reset_reads_future_seconds() {
    assert_eq!(parse_epoch_reset_at("1060", 1000), Some(60_000));
    assert_eq!(parse_epoch_reset_at(" 999 ", 1000), None);
    assert_eq!(parse_epoch_reset_at("later", 1000), None);
    assert_eq!(parse_epoch_reset_at("9223372036854775807", 0), Some(i64::MAX as u64));
}

#[test]
fn retry_after_header_falls_back_to_reset() {
    assert_eq!(retry_after_ms_from_headers_at(Some("2"), Some("2000"), 0, 1000), Some(2000));
    assert_eq!(retry_after_ms_from_headers_at(Some("bogus"), Some("1002"), 0, 1000), Some(2000));
    assert_eq!(retry_after_ms_from_headers_at(None, Some("1001"), 0, 1000), Some(1000));
    assert_eq!(retry_after_ms_from_headers_at(None, None, 0, 1000), None);
}

#[test]
fn returns_enqueued_responses_in_order() {
    let mut mock = MockLLMClient::new();
    mock.enqueue_response(Ok(response("first", "model-a", 10, 2, 50)));
    mock.enqueue_response(Err(LLMError::Timeout));
    mock.enqueue_response(Ok(response("second", "model-b", 20, 4, 75)));

    let first = mock.complete().unwrap();
    assert_eq!(first.content, "first");
    assert_eq!(first.model, "model-a");
    assert_eq!(first.input_tokens, 10);
    assert!(matches!(mock.complete(), Err(LLMError::Timeout)));
    let second = mock.complete().unwrap();
    assert_eq!(second.content, "second");
    assert_eq!(second.latency_ms, 75);
}

#[test]
fn returns_error_when_queue_empty() {
    let mut mock = MockLLMClient::new();
    let result = mock.complete();
    assert!(matches!(result, Err(LLMError::ProviderError(msg)) if msg.contains("mock response not provided")));
}

#[test]
fn llm_call_context_defaults_and_identity_fill() {
    let ctx = LlmCallContext::new("classification");
    assert_eq!(ctx.feature, "classification");
    assert!(ctx.org_id.is_none() && ctx.user_id.is_none() && ctx.rule_id.is_none());
    assert_eq!(LlmCallContext::default().feature, "");

    let call = new_llm_call(
        &ctx,
        1,
        2,
        "openai::gpt-4o-mini",
        serde_json::Value::Null,
        None,
        Some(3),
        Some(4),
        Some(50),
        Some("boom".into()),
    );
    assert_eq!(call.org_id, 1);
    assert_eq!(call.user_id, 2);
    assert_eq!(call.context.org_id, Some(1));
    assert_eq!(call.context.user_id, Some(2));
    assert_eq!(call.context.feature, "classification");
    assert_eq!(call.model, "openai::gpt-4o-mini");
    assert_eq!(call.error.as_deref(), Some("boom"));

    let mut ctx2 = LlmCallContext::new("rules_assistant");
    ctx2.org_id = Some(123);
    ctx2.user_id = Some(456);
    let call2 = new_llm_call(&ctx2, 1, 1, "m", serde_json::Value::Null, None, None, None, None, None);
    assert_eq!((call2.org_id, call2.user_id), (123, 456));

    let mut ctx3 = LlmCallContext::new("classification");
    ctx3.account_id = Some("acc-1".into());
    ctx3.message_id = Some("msg-1".into());
    ctx3.thread_id = Some("thr-1".into());
    ctx3.rule_name = Some("Newsletters".into());
    ctx3.rule_id = Some("rule-1".into());
    let call3 = new_llm_call(&ctx3, 1, 1, "m", serde_json::Value::Null, None, None, None, None, None);
    assert_eq!(call3.context.account_id.as_deref(), Some("acc-1"));
    assert_eq!(call3.context.message_id.as_deref(), Some("msg-1"));
    assert_eq!(call3.context.thread_id.as_deref(), Some("thr-1"));
    assert_eq!(call3.context.rule_name.as_deref(), Some("Newsletters"));
    assert_eq!(call3.context.rule_id.as_deref(), Some("rule-1"));
}

#[test]
fn completion_from_reply_fills_defaults() {
    let r = completion_from_reply(Some("ok".into()), "gpt-4o-mini".into(), Some(5), Some(7), 12, vec![]);
    assert_eq!((r.content.as_str(), r.model.as_str(), r.input_tokens, r.output_tokens, r.latency_ms), ("ok", "gpt-4o-mini", 5, 7, 12));
    assert!(r.tool_calls.is_empty());
    let r = completion_from_reply(None, "m".into(), None, Some(-1), 0, vec![]);
    assert_eq!((r.content.as_str(), r.input_tokens, r.output_tokens), ("", 0, 0));
}
