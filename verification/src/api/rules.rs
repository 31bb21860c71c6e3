//! Rules endpoints: validating new rules, merging partial updates into stored
//! rules, and the transaction protocol that swaps two rules' priorities.

use vstd::prelude::*;

use crate::api::error::{is_rejection, rejected, Rejection, STATUS_BAD_REQUEST, STATUS_INTERNAL_ERROR, STATUS_NOT_FOUND};
use crate::rules::repositories::{normalize_for_storage, normalized_scope_ref, opt_string_view, stored_form};
use crate::rules::types::{DeterministicRule, LlmRule, NewDeterministicRule, NewLlmRule, RuleScope, SafeMode};
use crate::json::{empty_json_object, is_empty_json_object};
use crate::text::{is_blank, is_blank_str, push_str, str_eq, string_from_chars};

verus! {

// ---------------------------------------------------------------------------
// Requests
// ---------------------------------------------------------------------------

/// Body of a request creating a deterministic rule. `conditions_json` is
/// `None` when the request carried JSON `null` (or nothing) there.
#[derive(Debug)]
pub struct CreateDeterministicRuleRequest {
    pub name: String,
    pub description: Option<String>,
    /// Defaults to `Global` when absent.
    pub scope: Option<RuleScope>,
    pub scope_ref: Option<String>,
    pub priority: Option<i64>,
    pub enabled: Option<bool>,
    pub conditions_json: Option<serde_json::Value>,
    pub action_type: String,
    pub action_parameters_json: Option<serde_json::Value>,
    pub safe_mode: Option<SafeMode>,
}

/// Body of a partial update of a deterministic rule. For the clearable fields
/// `None` keeps the stored value, `Some(None)` clears it and `Some(Some(v))`
/// replaces it.
#[derive(Debug)]
pub struct UpdateDeterministicRuleRequest {
    pub name: Option<String>,
    pub description: Option<Option<String>>,
    pub scope: Option<RuleScope>,
    pub scope_ref: Option<Option<String>>,
    pub priority: Option<i64>,
    pub enabled: Option<bool>,
    pub disabled_reason: Option<Option<String>>,
    pub conditions_json: Option<serde_json::Value>,
    pub action_type: Option<String>,
    pub action_parameters_json: Option<serde_json::Value>,
    pub safe_mode: Option<SafeMode>,
}

/// Body of a request creating an LLM rule.
#[derive(Debug)]
pub struct CreateLlmRuleRequest {
    pub name: String,
    pub description: Option<String>,
    pub scope: Option<RuleScope>,
    pub scope_ref: Option<String>,
    pub rule_text: String,
    pub enabled: Option<bool>,
    pub metadata_json: Option<serde_json::Value>,
}

/// Body of a partial update of an LLM rule (clearable fields as in
/// [`UpdateDeterministicRuleRequest`]).
#[derive(Debug)]
pub struct UpdateLlmRuleRequest {
    pub name: Option<String>,
    pub description: Option<Option<String>>,
    pub scope: Option<RuleScope>,
    pub scope_ref: Option<Option<String>>,
    pub rule_text: Option<String>,
    pub enabled: Option<bool>,
    pub metadata_json: Option<serde_json::Value>,
}

// ---------------------------------------------------------------------------
// Merging
// ---------------------------------------------------------------------------

/// A plain field after a patch: the new value when one was sent.
pub open spec fn patched<T>(existing: T, patch: Option<T>) -> T {
    match patch {
        Some(v) => v,
        None => existing,
    }
}

/// A clearable field after a patch: kept when absent, else the sent value
/// (`None` for an explicit null).
pub open spec fn patched_nullable(existing: Option<String>, patch: Option<Option<String>>) -> Option<String> {
    match patch {
        Some(v) => v,
        None => existing,
    }
}

/// The scope reference a rule keeps: none for a global rule.
pub open spec fn scoped_ref(scope: RuleScope, requested: Option<String>) -> Option<String> {
    match scope {
        RuleScope::Global => None,
        _ => requested,
    }
}

/// A stored deterministic rule with a partial update applied.
pub open spec fn merged_deterministic(e: DeterministicRule, b: UpdateDeterministicRuleRequest) -> NewDeterministicRule {
    let scope = patched(e.scope, b.scope);
    NewDeterministicRule {
        org_id: e.org_id,
        user_id: e.user_id,
        name: patched(e.name, b.name),
        description: patched_nullable(e.description, b.description),
        scope,
        scope_ref: scoped_ref(scope, patched_nullable(e.scope_ref, b.scope_ref)),
        priority: patched(e.priority, b.priority),
        enabled: patched(e.enabled, b.enabled),
        disabled_reason: patched_nullable(e.disabled_reason, b.disabled_reason),
        conditions_json: patched(e.conditions_json, b.conditions_json),
        action_type: patched(e.action_type, b.action_type),
        action_parameters_json: patched(e.action_parameters_json, b.action_parameters_json),
        safe_mode: patched(e.safe_mode, b.safe_mode),
    }
}

/// A stored LLM rule with a partial update applied.
pub open spec fn merged_llm(e: LlmRule, b: UpdateLlmRuleRequest) -> NewLlmRule {
    let scope = patched(e.scope, b.scope);
    NewLlmRule {
        org_id: e.org_id,
        user_id: e.user_id,
        name: patched(e.name, b.name),
        description: patched_nullable(e.description, b.description),
        scope,
        scope_ref: scoped_ref(scope, patched_nullable(e.scope_ref, b.scope_ref)),
        rule_text: patched(e.rule_text, b.rule_text),
        enabled: patched(e.enabled, b.enabled),
        metadata_json: patched(e.metadata_json, b.metadata_json),
    }
}

fn patch_value<T>(existing: T, patch: Option<T>) -> (r: T)
    ensures
        r == patched(existing, patch),
{
    match patch {
        Some(v) => v,
        None => existing,
    }
}

fn patch_nullable(existing: Option<String>, patch: Option<Option<String>>) -> (r: Option<String>)
    ensures
        r == patched_nullable(existing, patch),
{
    match patch {
        Some(v) => v,
        None => existing,
    }
}

fn scope_ref_for(scope: RuleScope, requested: Option<String>) -> (r: Option<String>)
    ensures
        r == scoped_ref(scope, requested),
{
    match scope {
        RuleScope::Global => None,
        _ => requested,
    }
}

/// Applies a partial update to a stored deterministic rule, giving the fields
/// to write back. A rule whose scope ends up global keeps no scope reference.
pub fn merge_deterministic_update(existing: DeterministicRule, body: UpdateDeterministicRuleRequest) -> (r:
    NewDeterministicRule)
    ensures
        r == merged_deterministic(existing, body),
{
    let scope = patch_value(existing.scope, body.scope);
    let scope_ref = scope_ref_for(scope, patch_nullable(existing.scope_ref, body.scope_ref));
    NewDeterministicRule {
        org_id: existing.org_id,
        user_id: existing.user_id,
        name: patch_value(existing.name, body.name),
        description: patch_nullable(existing.description, body.description),
        scope,
        scope_ref,
        priority: patch_value(existing.priority, body.priority),
        enabled: patch_value(existing.enabled, body.enabled),
        disabled_reason: patch_nullable(existing.disabled_reason, body.disabled_reason),
        conditions_json: patch_value(existing.conditions_json, body.conditions_json),
        action_type: patch_value(existing.action_type, body.action_type),
        action_parameters_json: patch_value(existing.action_parameters_json, body.action_parameters_json),
        safe_mode: patch_value(existing.safe_mode, body.safe_mode),
    }
}

/// Applies a partial update to a stored LLM rule, giving the fields to write
/// back. A rule whose scope ends up global keeps no scope reference.
pub fn merge_llm_update(existing: LlmRule, body: UpdateLlmRuleRequest) -> (r: NewLlmRule)
    ensures
        r == merged_llm(existing, body),
{
    let scope = patch_value(existing.scope, body.scope);
    let scope_ref = scope_ref_for(scope, patch_nullable(existing.scope_ref, body.scope_ref));
    NewLlmRule {
        org_id: existing.org_id,
        user_id: existing.user_id,
        name: patch_value(existing.name, body.name),
        description: patch_nullable(existing.description, body.description),
        scope,
        scope_ref,
        rule_text: patch_value(existing.rule_text, body.rule_text),
        enabled: patch_value(existing.enabled, body.enabled),
        metadata_json: patch_value(existing.metadata_json, body.metadata_json),
    }
}

/// Partial updates: an absent field keeps the stored value, an explicit null
/// clears a clearable field, a sent value replaces it, and a rule that ends up
/// global has no scope reference.
pub proof fn lemma_partial_update_semantics(
    e: DeterministicRule,
    b: UpdateDeterministicRuleRequest,
    le: LlmRule,
    lb: UpdateLlmRuleRequest,
)
    ensures
        b.name is None ==> merged_deterministic(e, b).name == e.name,
        b.description is None ==> merged_deterministic(e, b).description == e.description,
        b.description == Some(None::<String>) ==> merged_deterministic(e, b).description is None,
        b.disabled_reason is None ==> merged_deterministic(e, b).disabled_reason == e.disabled_reason,
        b.disabled_reason == Some(None::<String>) ==> merged_deterministic(e, b).disabled_reason is None,
        b.priority is None ==> merged_deterministic(e, b).priority == e.priority,
        b.enabled is None ==> merged_deterministic(e, b).enabled == e.enabled,
        b.conditions_json is None ==> merged_deterministic(e, b).conditions_json == e.conditions_json,
        b.scope is None && b.scope_ref is None && !(e.scope is Global)
            ==> merged_deterministic(e, b).scope_ref == e.scope_ref,
        merged_deterministic(e, b).scope is Global ==> merged_deterministic(e, b).scope_ref is None,
        merged_deterministic(e, b).org_id == e.org_id && merged_deterministic(e, b).user_id == e.user_id,
        lb.name is None ==> merged_llm(le, lb).name == le.name,
        lb.description is None ==> merged_llm(le, lb).description == le.description,
        lb.description == Some(None::<String>) ==> merged_llm(le, lb).description is None,
        lb.rule_text is None ==> merged_llm(le, lb).rule_text == le.rule_text,
        lb.enabled is None ==> merged_llm(le, lb).enabled == le.enabled,
        lb.scope is None && lb.scope_ref is None && !(le.scope is Global)
            ==> merged_llm(le, lb).scope_ref == le.scope_ref,
        merged_llm(le, lb).scope is Global ==> merged_llm(le, lb).scope_ref is None,
        merged_llm(le, lb).org_id == le.org_id && merged_llm(le, lb).user_id == le.user_id,
{
}

/// Every field sent in a partial update replaces the stored value: a sent
/// name, description, scope, priority, enabled flag, disabled reason,
/// conditions, action type, action parameters or safe mode is what the merged
/// rule carries, and a sent scope reference is kept unless the rule ends up
/// global. The same holds of the fields of an LLM rule.
pub proof fn lemma_sent_fields_replace(
    e: DeterministicRule,
    b: UpdateDeterministicRuleRequest,
    le: LlmRule,
    lb: UpdateLlmRuleRequest,
)
    ensures
        b.name matches Some(v) ==> merged_deterministic(e, b).name == v,
        b.description matches Some(v) ==> merged_deterministic(e, b).description == v,
        b.scope matches Some(v) ==> merged_deterministic(e, b).scope == v,
        b.priority matches Some(v) ==> merged_deterministic(e, b).priority == v,
        b.enabled matches Some(v) ==> merged_deterministic(e, b).enabled == v,
        b.disabled_reason matches Some(v) ==> merged_deterministic(e, b).disabled_reason == v,
        b.conditions_json matches Some(v) ==> merged_deterministic(e, b).conditions_json == v,
        b.action_type matches Some(v) ==> merged_deterministic(e, b).action_type == v,
        b.action_parameters_json matches Some(v) ==> merged_deterministic(e, b).action_parameters_json == v,
        b.safe_mode matches Some(v) ==> merged_deterministic(e, b).safe_mode == v,
        b.scope_ref is Some && !(merged_deterministic(e, b).scope is Global)
            ==> merged_deterministic(e, b).scope_ref == b.scope_ref->0,
        b.action_type is None ==> merged_deterministic(e, b).action_type == e.action_type,
        b.action_parameters_json is None ==> merged_deterministic(e, b).action_parameters_json == e.action_parameters_json,
        b.safe_mode is None ==> merged_deterministic(e, b).safe_mode == e.safe_mode,
        b.scope is None ==> merged_deterministic(e, b).scope == e.scope,
        lb.name matches Some(v) ==> merged_llm(le, lb).name == v,
        lb.description matches Some(v) ==> merged_llm(le, lb).description == v,
        lb.scope matches Some(v) ==> merged_llm(le, lb).scope == v,
        lb.rule_text matches Some(v) ==> merged_llm(le, lb).rule_text == v,
        lb.enabled matches Some(v) ==> merged_llm(le, lb).enabled == v,
        lb.metadata_json matches Some(v) ==> merged_llm(le, lb).metadata_json == v,
        lb.metadata_json is None ==> merged_llm(le, lb).metadata_json == le.metadata_json,
        lb.scope is None ==> merged_llm(le, lb).scope == le.scope,
        lb.scope_ref is Some && !(merged_llm(le, lb).scope is Global) ==> merged_llm(le, lb).scope_ref
            == lb.scope_ref->0,
{
}

// ---------------------------------------------------------------------------
// Creation
// ---------------------------------------------------------------------------

/// Priority of a new deterministic rule when none is given.
pub const DEFAULT_RULE_PRIORITY: i64 = 100;

/// Validates a request creating a deterministic rule and gives the rule to
/// store for the given organisation and user: a blank name, a blank action
/// type and missing conditions are refused, in that order. A sender or domain
/// scope reference is stored lower-cased.
pub fn prepare_deterministic_rule(body: CreateDeterministicRuleRequest, org_id: i64, user_id: i64) -> (r:
    Result<NewDeterministicRule, Rejection>)
    ensures
        is_blank(body.name@) ==> rejected(r, STATUS_BAD_REQUEST, "bad_request"@, "Name is required"@),
        !is_blank(body.name@) && is_blank(body.action_type@) ==> rejected(r, STATUS_BAD_REQUEST, "bad_request"@, "Action type is required"@),
        !is_blank(body.name@) && !is_blank(body.action_type@) && body.conditions_json is None
            ==> rejected(r, STATUS_BAD_REQUEST, "bad_request"@, "Conditions are required"@),
        !is_blank(body.name@) && !is_blank(body.action_type@) && body.conditions_json is Some ==> (r matches Ok(rule) && {
            let scope = patched(RuleScope::Global, body.scope);
            &&& rule.org_id == org_id
            &&& rule.user_id == Some(user_id)
            &&& rule.name == body.name
            &&& rule.description == body.description
            &&& rule.scope == scope
            &&& opt_string_view(rule.scope_ref) == normalized_scope_ref(scope, opt_string_view(scoped_ref(scope, body.scope_ref)))
            &&& rule.priority == patched(DEFAULT_RULE_PRIORITY, body.priority)
            &&& rule.enabled == patched(true, body.enabled)
            &&& rule.disabled_reason is None
            &&& Some(rule.conditions_json) == body.conditions_json
            &&& rule.action_type == body.action_type
            &&& (body.action_parameters_json matches Some(p) ==> rule.action_parameters_json == p)
            &&& (body.action_parameters_json is None ==> is_empty_json_object(rule.action_parameters_json))
            &&& rule.safe_mode == patched(SafeMode::Default, body.safe_mode)
        }),
{
    if is_blank_str(body.name.as_str()) {
        return Err(Rejection::bad_request("Name is required"));
    }
    if is_blank_str(body.action_type.as_str()) {
        return Err(Rejection::bad_request("Action type is required"));
    }
    let conditions_json = match body.conditions_json {
        Some(c) => c,
        None => {
            return Err(Rejection::bad_request("Conditions are required"));
        },
    };
    let scope = patch_value(RuleScope::Global, body.scope);
    let action_parameters_json = match body.action_parameters_json {
        Some(p) => p,
        None => empty_json_object(),
    };
    Ok(
        normalize_for_storage(NewDeterministicRule {
            org_id,
            user_id: Some(user_id),
            name: body.name,
            description: body.description,
            scope,
            scope_ref: scope_ref_for(scope, body.scope_ref),
            priority: patch_value(DEFAULT_RULE_PRIORITY, body.priority),
            enabled: patch_value(true, body.enabled),
            disabled_reason: None,
            conditions_json,
            action_type: body.action_type,
            action_parameters_json,
            safe_mode: patch_value(SafeMode::Default, body.safe_mode),
        }),
    )
}

/// Validates a request creating an LLM rule and gives the rule to store: a
/// blank name and then a blank rule text are refused.
pub fn prepare_llm_rule(body: CreateLlmRuleRequest, org_id: i64, user_id: i64) -> (r: Result<NewLlmRule, Rejection>)
    ensures
        is_blank(body.name@) ==> rejected(r, STATUS_BAD_REQUEST, "bad_request"@, "Name is required"@),
        !is_blank(body.name@) && is_blank(body.rule_text@) ==> rejected(r, STATUS_BAD_REQUEST, "bad_request"@, "Rule text is required"@),
        !is_blank(body.name@) && !is_blank(body.rule_text@) ==> (r matches Ok(rule) && {
            let scope = patched(RuleScope::Global, body.scope);
            &&& rule.org_id == org_id
            &&& rule.user_id == Some(user_id)
            &&& rule.name == body.name
            &&& rule.description == body.description
            &&& rule.scope == scope
            &&& rule.scope_ref == scoped_ref(scope, body.scope_ref)
            &&& rule.rule_text == body.rule_text
            &&& rule.enabled == patched(true, body.enabled)
            &&& (body.metadata_json matches Some(m) ==> rule.metadata_json == m)
            &&& (body.metadata_json is None ==> is_empty_json_object(rule.metadata_json))
        }),
{
    if is_blank_str(body.name.as_str()) {
        return Err(Rejection::bad_request("Name is required"));
    }
    if is_blank_str(body.rule_text.as_str()) {
        return Err(Rejection::bad_request("Rule text is required"));
    }
    let scope = patch_value(RuleScope::Global, body.scope);
    let metadata_json = match body.metadata_json {
        Some(m) => m,
        None => empty_json_object(),
    };
    Ok(
        NewLlmRule {
            org_id,
            user_id: Some(user_id),
            name: body.name,
            description: body.description,
            scope,
            scope_ref: scope_ref_for(scope, body.scope_ref),
            rule_text: body.rule_text,
            enabled: patch_value(true, body.enabled),
            metadata_json,
        },
    )
}

// ---------------------------------------------------------------------------
// Repository failures
// ---------------------------------------------------------------------------

/// Which kind of rule an endpoint works on.
#[derive(Debug, Clone, Copy, PartialEq, Eq)]
pub enum RuleKind {
    Deterministic,
    Llm,
}

/// How a rule kind is named in messages.
pub open spec fn rule_kind_label(k: RuleKind) -> Seq<char> {
    match k {
        RuleKind::Deterministic => "Deterministic rule"@,
        RuleKind::Llm => "LLM rule"@,
    }
}

/// How a rule kind is named inside failure messages.
pub open spec fn rule_kind_lower(k: RuleKind) -> Seq<char> {
    match k {
        RuleKind::Deterministic => "deterministic rule"@,
        RuleKind::Llm => "LLM rule"@,
    }
}

/// `<Kind> not found: <id>`.
pub open spec fn rule_not_found_message(kind: RuleKind, id: Seq<char>) -> Seq<char> {
    rule_kind_label(kind) + " not found: "@ + id
}

/// 404 for a rule that does not exist: `<Kind> not found: <id>`.
pub fn rule_not_found(kind: RuleKind, id: &str) -> (r: Rejection)
    ensures
        is_rejection(r, STATUS_NOT_FOUND, "not_found"@, rule_not_found_message(kind, id@)),
{
    let mut v: Vec<char> = Vec::new();
    match kind {
        RuleKind::Deterministic => push_str(&mut v, "Deterministic rule"),
        RuleKind::Llm => push_str(&mut v, "LLM rule"),
    }
    push_str(&mut v, " not found: ");
    push_str(&mut v, id);
    Rejection::not_found(string_from_chars(&v))
}

/// 500 for a failed repository operation: `Failed to <verb> <kind>: <detail>`.
pub fn rule_operation_failed(verb: &str, kind: RuleKind, detail: &str) -> (r: Rejection)
    ensures
        is_rejection(
            r,
            STATUS_INTERNAL_ERROR,
            "internal_error"@,
            "Failed to "@ + verb@ + " "@ + rule_kind_lower(kind) + ": "@ + detail@,
        ),
{
    let mut v: Vec<char> = Vec::new();
    push_str(&mut v, "Failed to ");
    push_str(&mut v, verb);
    push_str(&mut v, " ");
    match kind {
        RuleKind::Deterministic => push_str(&mut v, "deterministic rule"),
        RuleKind::Llm => push_str(&mut v, "LLM rule"),
    }
    push_str(&mut v, ": ");
    push_str(&mut v, detail);
    Rejection::internal(string_from_chars(&v))
}

/// What the store answered to one operation on a rule.
#[derive(Debug)]
pub enum StoreReply<R> {
    /// The operation succeeded with this result.
    Done(R),
    /// No rule with the requested id is visible.
    NotFound,
    /// The store failed with this error text.
    Failed(String),
}

/// `Failed to <verb> <kind>: <detail>`.
pub open spec fn rule_failure_message(verb: Seq<char>, kind: RuleKind, detail: Seq<char>) -> Seq<char> {
    "Failed to "@ + verb + " "@ + rule_kind_lower(kind) + ": "@ + detail
}

/// The endpoint's answer to a store reply about rule `id`: the result, 404
/// when the rule is not there, 500 with the store's error text otherwise.
pub fn store_reply_answer<R>(kind: RuleKind, verb: &str, id: &str, reply: StoreReply<R>) -> (r: Result<R, Rejection>)
    ensures
        reply matches StoreReply::Done(x) ==> (r matches Ok(y) && y == x),
        reply is NotFound ==> rejected(r, STATUS_NOT_FOUND, "not_found"@, rule_not_found_message(kind, id@)),
        reply matches StoreReply::Failed(d) ==> rejected(
            r,
            STATUS_INTERNAL_ERROR,
            "internal_error"@,
            rule_failure_message(verb@, kind, d@),
        ),
{
    match reply {
        StoreReply::Done(x) => Ok(x),
        StoreReply::NotFound => Err(rule_not_found(kind, id)),
        StoreReply::Failed(d) => Err(rule_operation_failed(verb, kind, d.as_str())),
    }
}

/// First step of a partial update of deterministic rule `id`, given what
/// fetching it returned: 404 when it is missing, 500 when the fetch failed,
/// otherwise the merged rule as it is to be written (sender and domain scope
/// references lower-cased). The write's own reply is answered by
/// [`store_reply_answer`] with the verb `update`.
pub fn plan_deterministic_update(
    id: &str,
    fetched: StoreReply<DeterministicRule>,
    body: UpdateDeterministicRuleRequest,
) -> (r: Result<NewDeterministicRule, Rejection>)
    ensures
        fetched is NotFound ==> rejected(
            r,
            STATUS_NOT_FOUND,
            "not_found"@,
            rule_not_found_message(RuleKind::Deterministic, id@),
        ),
        fetched matches StoreReply::Failed(d) ==> rejected(
            r,
            STATUS_INTERNAL_ERROR,
            "internal_error"@,
            rule_failure_message("fetch"@, RuleKind::Deterministic, d@),
        ),
        fetched matches StoreReply::Done(e) ==> (r matches Ok(rule) && stored_form(
            rule,
            merged_deterministic(e, body),
        )),
{
    proof {
        reveal_strlit("fetch");
    }
    match store_reply_answer(RuleKind::Deterministic, "fetch", id, fetched) {
        Ok(existing) => Ok(normalize_for_storage(merge_deterministic_update(existing, body))),
        Err(e) => Err(e),
    }
}

/// First step of a partial update of LLM rule `id`, given what fetching it
/// returned: 404 when it is missing, 500 when the fetch failed, otherwise the
/// merged rule to write. The write's own reply is answered by
/// [`store_reply_answer`] with the verb `update`.
pub fn plan_llm_update(id: &str, fetched: StoreReply<LlmRule>, body: UpdateLlmRuleRequest) -> (r: Result<
    NewLlmRule,
    Rejection,
>)
    ensures
        fetched is NotFound ==> rejected(r, STATUS_NOT_FOUND, "not_found"@, rule_not_found_message(RuleKind::Llm, id@)),
        fetched matches StoreReply::Failed(d) ==> rejected(
            r,
            STATUS_INTERNAL_ERROR,
            "internal_error"@,
            rule_failure_message("fetch"@, RuleKind::Llm, d@),
        ),
        fetched matches StoreReply::Done(e) ==> (r matches Ok(rule) && rule == merged_llm(e, body)),
{
    proof {
        reveal_strlit("fetch");
    }
    match store_reply_answer(RuleKind::Llm, "fetch", id, fetched) {
        Ok(existing) => Ok(merge_llm_update(existing, body)),
        Err(e) => Err(e),
    }
}

// ---------------------------------------------------------------------------
// Swapping priorities
// ---------------------------------------------------------------------------

/// Body of a request swapping the priorities of two deterministic rules.
#[derive(Debug, Clone, PartialEq, Eq)]
pub struct SwapPrioritiesRequest {
    pub rule_a_id: String,
    pub rule_b_id: String,
}

/// Answer to a successful swap.
#[derive(Debug, Clone, Copy, PartialEq, Eq)]
pub struct SwapPrioritiesResponse {
    pub success: bool,
}

/// Where a swap stands. The priorities read so far travel with the phase.
#[derive(Debug, Clone, Copy, PartialEq, Eq)]
pub enum SwapPhase {
    /// Waiting for a database connection.
    Connecting,
    /// Waiting for the transaction to start.
    Beginning,
    /// Waiting for rule A's priority.
    ReadingA,
    /// Waiting for rule B's priority.
    ReadingB { priority_a: i64 },
    /// Waiting for the write of B's priority into rule A.
    WritingA { priority_a: i64, priority_b: i64 },
    /// Waiting for the write of A's priority into rule B.
    WritingB { priority_a: i64, priority_b: i64 },
    /// Waiting for the commit.
    Committing,
    /// An answer has been given; nothing more happens.
    Finished,
}

/// What the database reported for the last requested operation.
#[derive(Debug, Clone, Copy, PartialEq, Eq)]
pub enum SwapEvent {
    Connected,
    ConnectFailed,
    TransactionStarted,
    TransactionFailed,
    /// The priority of the rule asked for, or `None` when no such rule exists.
    PriorityRead(Option<i64>),
    ReadFailed,
    /// Number of rows the update changed.
    PriorityWritten(u64),
    WriteFailed,
    Committed,
    CommitFailed,
}

/// What to do next. Dropping an open transaction without committing it rolls
/// it back.
#[derive(Debug, PartialEq, Eq)]
pub enum SwapStep {
    Connect,
    BeginTransaction,
    ReadPriority { rule_id: String },
    WritePriority { rule_id: String, priority: i64 },
    Commit,
    Reply(Result<SwapPrioritiesResponse, Rejection>),
}

/// A swap in progress between rules A and B.
#[derive(Debug)]
pub struct PrioritySwap {
    rule_a_id: String,
    rule_b_id: String,
    phase: SwapPhase,
}

/// The step is an internal-error answer with the given message.
pub open spec fn replies_internal(step: SwapStep, message: Seq<char>) -> bool {
    match step {
        SwapStep::Reply(r) => rejected(r, STATUS_INTERNAL_ERROR, "internal_error"@, message),
        _ => false,
    }
}

/// One move of the swap protocol: from `phase`, on `event`, to `next` with
/// `step` to perform. Every failure answers and finishes; rule A receives the
/// priority read for B and rule B the one read for A; the commit follows only
/// the second single-row write.
pub open spec fn swap_transition(
    a_id: Seq<char>,
    b_id: Seq<char>,
    phase: SwapPhase,
    event: SwapEvent,
    next: SwapPhase,
    step: SwapStep,
) -> bool {
    match phase {
        SwapPhase::Connecting => if event == SwapEvent::Connected {
            next == SwapPhase::Beginning && step == SwapStep::BeginTransaction
        } else {
            next == SwapPhase::Finished && replies_internal(step, "Failed to connect to database"@)
        },
        SwapPhase::Beginning => if event == SwapEvent::TransactionStarted {
            next == SwapPhase::ReadingA && (step matches SwapStep::ReadPriority { rule_id } && rule_id@ == a_id)
        } else {
            next == SwapPhase::Finished && replies_internal(step, "Failed to start transaction"@)
        },
        SwapPhase::ReadingA => match event {
            SwapEvent::PriorityRead(Some(p)) => next == (SwapPhase::ReadingB { priority_a: p }) && (
            step matches SwapStep::ReadPriority { rule_id } && rule_id@ == b_id),
            SwapEvent::PriorityRead(None) => next == SwapPhase::Finished && (step matches SwapStep::Reply(r)
                && rejected(r, STATUS_NOT_FOUND, "not_found"@, rule_not_found_message(RuleKind::Deterministic, a_id))),
            _ => next == SwapPhase::Finished && replies_internal(step, "Failed to fetch rule"@),
        },
        SwapPhase::ReadingB { priority_a } => match event {
            SwapEvent::PriorityRead(Some(p)) => next == (SwapPhase::WritingA { priority_a, priority_b: p })
                && (step matches SwapStep::WritePriority { rule_id, priority } && rule_id@ == a_id
                && priority == p),
            SwapEvent::PriorityRead(None) => next == SwapPhase::Finished && (step matches SwapStep::Reply(r)
                && rejected(r, STATUS_NOT_FOUND, "not_found"@, rule_not_found_message(RuleKind::Deterministic, b_id))),
            _ => next == SwapPhase::Finished && replies_internal(step, "Failed to fetch rule"@),
        },
        SwapPhase::WritingA { priority_a, priority_b } => match event {
            SwapEvent::PriorityWritten(n) => if n == 1 {
                next == (SwapPhase::WritingB { priority_a, priority_b }) && (
                step matches SwapStep::WritePriority { rule_id, priority } && rule_id@ == b_id && priority
                    == priority_a)
            } else {
                next == SwapPhase::Finished && replies_internal(
                    step,
                    "Rule was modified or deleted during swap"@,
                )
            },
            _ => next == SwapPhase::Finished && replies_internal(step, "Failed to update rule priority"@),
        },
        SwapPhase::WritingB { .. } => match event {
            SwapEvent::PriorityWritten(n) => if n == 1 {
                next == SwapPhase::Committing && step == SwapStep::Commit
            } else {
                next == SwapPhase::Finished && replies_internal(
                    step,
                    "Rule was modified or deleted during swap"@,
                )
            },
            _ => next == SwapPhase::Finished && replies_internal(step, "Failed to update rule priority"@),
        },
        SwapPhase::Committing => if event == SwapEvent::Committed {
            next == SwapPhase::Finished && step == SwapStep::Reply(
                Ok(SwapPrioritiesResponse { success: true }),
            )
        } else {
            next == SwapPhase::Finished && replies_internal(step, "Failed to commit priority swap"@)
        },
        SwapPhase::Finished => false,
    }
}

fn internal_reply(message: &str) -> (r: SwapStep)
    ensures
        replies_internal(r, message@),
{
    SwapStep::Reply(Err(Rejection::internal(crate::text::owned(message))))
}

impl PrioritySwap {
    /// The id of the rule whose priority is read first.
    pub closed spec fn a_id(&self) -> Seq<char> {
        self.rule_a_id@
    }

    /// The id of the rule whose priority is read second.
    pub closed spec fn b_id(&self) -> Seq<char> {
        self.rule_b_id@
    }

    /// The current phase.
    pub closed spec fn phase(&self) -> SwapPhase {
        self.phase
    }

    /// Starts a swap. Blank ids and a rule swapped with itself are refused at
    /// once; otherwise the first step is to get a connection.
    pub fn start(request: SwapPrioritiesRequest) -> (r: (Self, SwapStep))
        ensures
            r.0.a_id() == request.rule_a_id@,
            r.0.b_id() == request.rule_b_id@,
            is_blank(request.rule_a_id@) || is_blank(request.rule_b_id@) ==> r.0.phase() == SwapPhase::Finished
                && (r.1 matches SwapStep::Reply(res) && rejected(
                res,
                STATUS_BAD_REQUEST,
                "bad_request"@,
                "Both rule IDs are required"@,
            )),
            !is_blank(request.rule_a_id@) && !is_blank(request.rule_b_id@) && request.rule_a_id@
                == request.rule_b_id@ ==> r.0.phase() == SwapPhase::Finished && (r.1 matches SwapStep::Reply(res)
                && rejected(res, STATUS_BAD_REQUEST, "bad_request"@, "Cannot swap a rule's priority with itself"@)),
            !is_blank(request.rule_a_id@) && !is_blank(request.rule_b_id@) && request.rule_a_id@
                != request.rule_b_id@ ==> r.0.phase() == SwapPhase::Connecting && r.1 == SwapStep::Connect,
    {
        let blank = is_blank_str(request.rule_a_id.as_str()) || is_blank_str(request.rule_b_id.as_str());
        let same = str_eq(request.rule_a_id.as_str(), request.rule_b_id.as_str());
        let (phase, step) = if blank {
            (
                SwapPhase::Finished,
                SwapStep::Reply(Err(Rejection::bad_request("Both rule IDs are required"))),
            )
        } else if same {
            (
                SwapPhase::Finished,
                SwapStep::Reply(Err(Rejection::bad_request("Cannot swap a rule's priority with itself"))),
            )
        } else {
            (SwapPhase::Connecting, SwapStep::Connect)
        };
        (PrioritySwap { rule_a_id: request.rule_a_id, rule_b_id: request.rule_b_id, phase }, step)
    }

    /// Takes the outcome of the last step and gives the next one.
    pub fn advance(&mut self, event: SwapEvent) -> (step: SwapStep)
        requires
            old(self).phase() != SwapPhase::Finished,
        ensures
            final(self).a_id() == old(self).a_id(),
            final(self).b_id() == old(self).b_id(),
            swap_transition(old(self).a_id(), old(self).b_id(), old(self).phase(), event, final(self).phase(), step),
    {
        let (next, step) = match self.phase {
            SwapPhase::Connecting => match event {
                SwapEvent::Connected => (SwapPhase::Beginning, SwapStep::BeginTransaction),
                _ => (SwapPhase::Finished, internal_reply("Failed to connect to database")),
            },
            SwapPhase::Beginning => match event {
                SwapEvent::TransactionStarted => (
                    SwapPhase::ReadingA,
                    SwapStep::ReadPriority { rule_id: self.rule_a_id.clone() },
                ),
                _ => (SwapPhase::Finished, internal_reply("Failed to start transaction")),
            },
            SwapPhase::ReadingA => match event {
                SwapEvent::PriorityRead(Some(p)) => (
                    SwapPhase::ReadingB { priority_a: p },
                    SwapStep::ReadPriority { rule_id: self.rule_b_id.clone() },
                ),
                SwapEvent::PriorityRead(None) => (
                    SwapPhase::Finished,
                    SwapStep::Reply(Err(rule_not_found(RuleKind::Deterministic, self.rule_a_id.as_str()))),
                ),
                _ => (SwapPhase::Finished, internal_reply("Failed to fetch rule")),
            },
            SwapPhase::ReadingB { priority_a } => match event {
                SwapEvent::PriorityRead(Some(p)) => (
                    SwapPhase::WritingA { priority_a, priority_b: p },
                    SwapStep::WritePriority { rule_id: self.rule_a_id.clone(), priority: p },
                ),
                SwapEvent::PriorityRead(None) => (
                    SwapPhase::Finished,
                    SwapStep::Reply(Err(rule_not_found(RuleKind::Deterministic, self.rule_b_id.as_str()))),
                ),
                _ => (SwapPhase::Finished, internal_reply("Failed to fetch rule")),
            },
            SwapPhase::WritingA { priority_a, priority_b } => match event {
                SwapEvent::PriorityWritten(n) => {
                    if n == 1 {
                        (
                            SwapPhase::WritingB { priority_a, priority_b },
                            SwapStep::WritePriority { rule_id: self.rule_b_id.clone(), priority: priority_a },
                        )
                    } else {
                        (SwapPhase::Finished, internal_reply("Rule was modified or deleted during swap"))
                    }
                },
                _ => (SwapPhase::Finished, internal_reply("Failed to update rule priority")),
            },
            SwapPhase::WritingB { .. } => match event {
                SwapEvent::PriorityWritten(n) => {
                    if n == 1 {
                        (SwapPhase::Committing, SwapStep::Commit)
                    } else {
                        (SwapPhase::Finished, internal_reply("Rule was modified or deleted during swap"))
                    }
                },
                _ => (SwapPhase::Finished, internal_reply("Failed to update rule priority")),
            },
            SwapPhase::Committing => match event {
                SwapEvent::Committed => (
                    SwapPhase::Finished,
                    SwapStep::Reply(Ok(SwapPrioritiesResponse { success: true })),
                ),
                _ => (SwapPhase::Finished, internal_reply("Failed to commit priority swap")),
            },
            SwapPhase::Finished => (SwapPhase::Finished, internal_reply("Failed to commit priority swap")),
        };
        self.phase = next;
        step
    }
}

/// The swap is atomic in what it asks of the database: a commit is asked for
/// only after the second write changed exactly one row; rule A is written with
/// the priority read for rule B and rule B with the one read for rule A; and
/// every other outcome answers at once and finishes without a commit.
pub proof fn lemma_swap_is_atomic(
    a_id: Seq<char>,
    b_id: Seq<char>,
    phase: SwapPhase,
    event: SwapEvent,
    next: SwapPhase,
    step: SwapStep,
)
    requires
        swap_transition(a_id, b_id, phase, event, next, step),
    ensures
        step == SwapStep::Commit ==> (phase matches SwapPhase::WritingB { .. }) && event
            == SwapEvent::PriorityWritten(1),
        step matches SwapStep::WritePriority { rule_id, priority } ==> ({
            ||| rule_id@ == a_id && (phase matches SwapPhase::ReadingB { priority_a } && next
                == (SwapPhase::WritingA { priority_a, priority_b: priority })) && event
                == SwapEvent::PriorityRead(Some(priority))
            ||| rule_id@ == b_id && (phase matches SwapPhase::WritingA { priority_a, .. }
                && priority == priority_a) && event == SwapEvent::PriorityWritten(1)
        }),
        step is Reply ==> next == SwapPhase::Finished,
        step matches SwapStep::Reply(r) && r is Ok ==> phase == SwapPhase::Committing && event
            == SwapEvent::Committed,
{
}

} // verus!
