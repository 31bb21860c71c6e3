//! Normalisation applied to rules before they are stored or looked up.

use vstd::prelude::*;

use crate::rules::types::{NewDeterministicRule, RuleScope};
use crate::text::{lowercase, push_str, string_from_chars, to_lowercase};

verus! {

/// The text of an optional string.
pub open spec fn opt_string_view(s: Option<String>) -> Option<Seq<char>> {
    match s {
        Some(v) => Some(v@),
        None => None,
    }
}

/// Sender and domain scope references compare case-insensitively, so they are
/// stored lower-cased; other references are kept as given.
pub open spec fn normalized_scope_ref(scope: RuleScope, scope_ref: Option<Seq<char>>) -> Option<Seq<char>> {
    match scope_ref {
        Some(r) => if scope == RuleScope::Domain || scope == RuleScope::Sender {
            Some(lowercase(r))
        } else {
            Some(r)
        },
        None => None,
    }
}

/// Storage lower-cases the reference of a sender or domain rule and keeps
/// the reference of any other rule exactly; a missing reference stays missing.
pub proof fn lemma_scope_ref_normalization(scope: RuleScope, r: Option<Seq<char>>)
    ensures
        r is None ==> normalized_scope_ref(scope, r) is None,
        r is Some && (scope == RuleScope::Domain || scope == RuleScope::Sender) ==> normalized_scope_ref(scope, r)
            == Some(lowercase(r->0)),
        (scope == RuleScope::Global || scope == RuleScope::Account) ==> normalized_scope_ref(scope, r) == r,
{
}

/// Lower-cases the scope reference of sender and domain rules.
pub fn normalize_scope_ref(scope: &RuleScope, scope_ref: &Option<String>) -> (r: Option<String>)
    ensures
        opt_string_view(r) == normalized_scope_ref(*scope, opt_string_view(*scope_ref)),
{
    match scope_ref {
        Some(value) => match scope {
            RuleScope::Domain | RuleScope::Sender => Some(to_lowercase(value.as_str())),
            _ => Some(value.clone()),
        },
        None => None,
    }
}

/// `stored` is `rule` as it is written to the store: every field kept, the
/// scope reference normalised for the rule's scope.
pub open spec fn stored_form(stored: NewDeterministicRule, rule: NewDeterministicRule) -> bool {
    &&& opt_string_view(stored.scope_ref) == normalized_scope_ref(rule.scope, opt_string_view(rule.scope_ref))
    &&& stored.org_id == rule.org_id
    &&& stored.user_id == rule.user_id
    &&& stored.name == rule.name
    &&& stored.description == rule.description
    &&& stored.scope == rule.scope
    &&& stored.priority == rule.priority
    &&& stored.enabled == rule.enabled
    &&& stored.disabled_reason == rule.disabled_reason
    &&& stored.conditions_json == rule.conditions_json
    &&& stored.action_type == rule.action_type
    &&& stored.action_parameters_json == rule.action_parameters_json
    &&& stored.safe_mode == rule.safe_mode
}

/// Prepares a deterministic rule for writing: its sender or domain scope
/// reference is lower-cased, everything else is kept.
pub fn normalize_for_storage(rule: NewDeterministicRule) -> (r: NewDeterministicRule)
    ensures
        stored_form(r, rule),
{
    let scope_ref = normalize_scope_ref(&rule.scope, &rule.scope_ref);
    NewDeterministicRule {
        org_id: rule.org_id,
        user_id: rule.user_id,
        name: rule.name,
        description: rule.description,
        scope: rule.scope,
        scope_ref,
        priority: rule.priority,
        enabled: rule.enabled,
        disabled_reason: rule.disabled_reason,
        conditions_json: rule.conditions_json,
        action_type: rule.action_type,
        action_parameters_json: rule.action_parameters_json,
        safe_mode: rule.safe_mode,
    }
}

/// The `LIKE` pattern that finds a label id as a quoted JSON string, so that
/// `Label_1` does not match `Label_10`: `%"<id>"%`.
pub fn label_reference_pattern(label_provider_id: &str) -> (r: String)
    ensures
        r@ == seq!['%', '"'] + label_provider_id@ + seq!['"', '%'],
{
    let mut v: Vec<char> = Vec::new();
    v.push('%');
    v.push('"');
    push_str(&mut v, label_provider_id);
    v.push('"');
    v.push('%');
    assert(v@ =~= seq!['%', '"'] + label_provider_id@ + seq!['"', '%']);
    string_from_chars(&v)
}

} // verus!
