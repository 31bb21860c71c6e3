//! What is recorded about each language-model call.

use vstd::prelude::*;

use crate::text::owned;

verus! {

/// Where a model call came from: the feature that made it and the records it
/// concerns.
#[derive(Debug, Clone, PartialEq, Eq)]
pub struct LlmCallContext {
    /// High-level feature name, e.g. "classification" or "rules_assistant".
    pub feature: String,
    pub org_id: Option<i64>,
    pub user_id: Option<i64>,
    pub account_id: Option<String>,
    pub message_id: Option<String>,
    pub thread_id: Option<String>,
    pub rule_name: Option<String>,
    pub rule_id: Option<String>,
}

impl LlmCallContext {
    /// A context naming only the feature.
    pub fn new(feature: &str) -> (r: Self)
        ensures
            r.feature@ == feature@,
            r.org_id is None,
            r.user_id is None,
            r.account_id is None,
            r.message_id is None,
            r.thread_id is None,
            r.rule_name is None,
            r.rule_id is None,
    {
        LlmCallContext {
            feature: owned(feature),
            org_id: None,
            user_id: None,
            account_id: None,
            message_id: None,
            thread_id: None,
            rule_name: None,
            rule_id: None,
        }
    }
}

impl Default for LlmCallContext {
    fn default() -> (r: Self)
        ensures
            r.feature@ == Seq::<char>::empty(),
            r.org_id is None,
            r.user_id is None,
            r.account_id is None,
            r.message_id is None,
            r.thread_id is None,
            r.rule_name is None,
            r.rule_id is None,
    {
        proof {
            reveal_strlit("");
        }
        LlmCallContext::new("")
    }
}

/// A model call about to be recorded.
#[derive(Debug)]
pub struct NewLlmCall {
    pub org_id: i64,
    pub user_id: i64,
    pub context: LlmCallContext,
    pub model: String,
    pub request_json: serde_json::Value,
    pub response_json: Option<serde_json::Value>,
    pub input_tokens: Option<u32>,
    pub output_tokens: Option<u32>,
    pub latency_ms: Option<u64>,
    pub error: Option<String>,
    pub trace_id: Option<String>,
}

/// The record of one call: the context's organisation and user, or the given
/// defaults where the context names none, written back into the stored context
/// too.
pub fn new_llm_call(
    context: &LlmCallContext,
    default_org_id: i64,
    default_user_id: i64,
    model: &str,
    request_json: serde_json::Value,
    response_json: Option<serde_json::Value>,
    input_tokens: Option<u32>,
    output_tokens: Option<u32>,
    latency_ms: Option<u64>,
    error: Option<String>,
) -> (r: NewLlmCall)
    ensures
        r.org_id == match context.org_id {
            Some(o) => o,
            None => default_org_id,
        },
        r.user_id == match context.user_id {
            Some(u) => u,
            None => default_user_id,
        },
        r.context.org_id == Some(r.org_id),
        r.context.user_id == Some(r.user_id),
        r.context.feature@ == context.feature@,
        r.context.account_id == context.account_id,
        r.context.message_id == context.message_id,
        r.context.thread_id == context.thread_id,
        r.context.rule_name == context.rule_name,
        r.context.rule_id == context.rule_id,
        r.model@ == model@,
        r.request_json == request_json,
        r.response_json == response_json,
        r.input_tokens == input_tokens,
        r.output_tokens == output_tokens,
        r.latency_ms == latency_ms,
        r.error == error,
        r.trace_id is None,
{
    let org_id = match context.org_id {
        Some(o) => o,
        None => default_org_id,
    };
    let user_id = match context.user_id {
        Some(u) => u,
        None => default_user_id,
    };
    let stored = LlmCallContext {
        feature: context.feature.clone(),
        org_id: Some(org_id),
        user_id: Some(user_id),
        account_id: context.account_id.clone(),
        message_id: context.message_id.clone(),
        thread_id: context.thread_id.clone(),
        rule_name: context.rule_name.clone(),
        rule_id: context.rule_id.clone(),
    };
    NewLlmCall {
        org_id,
        user_id,
        context: stored,
        model: owned(model),
        request_json,
        response_json,
        input_tokens,
        output_tokens,
        latency_ms,
        error,
        trace_id: None,
    }
}

} // verus!
