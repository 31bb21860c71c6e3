//! Stored forms of rules, directions and rules-assistant chat records.

use vstd::prelude::*;

use crate::text::str_eq;

verus! {

/// Which messages a rule applies to.
#[derive(Debug, Clone, Copy, PartialEq, Eq)]
pub enum RuleScope {
    Global,
    Account,
    Sender,
    Domain,
}

/// How the safety policy treats a rule's action.
#[derive(Debug, Clone, Copy, PartialEq, Eq)]
pub enum SafeMode {
    Default,
    AlwaysSafe,
    DangerousOverride,
}

/// Author of a rules-assistant chat message.
#[derive(Debug, Clone, Copy, PartialEq, Eq)]
pub enum RulesChatRole {
    User,
    Assistant,
    System,
}

/// Stored name of a scope.
pub open spec fn scope_name(s: RuleScope) -> Seq<char> {
    match s {
        RuleScope::Global => "global"@,
        RuleScope::Account => "account"@,
        RuleScope::Sender => "sender"@,
        RuleScope::Domain => "domain"@,
    }
}

/// The scope a stored name denotes, if any.
pub open spec fn scope_from_name(n: Seq<char>) -> Option<RuleScope> {
    if n == "global"@ {
        Some(RuleScope::Global)
    } else if n == "account"@ {
        Some(RuleScope::Account)
    } else if n == "sender"@ {
        Some(RuleScope::Sender)
    } else if n == "domain"@ {
        Some(RuleScope::Domain)
    } else {
        None
    }
}

/// Stored name of a safe mode.
pub open spec fn safe_mode_name(m: SafeMode) -> Seq<char> {
    match m {
        SafeMode::Default => "default"@,
        SafeMode::AlwaysSafe => "always_safe"@,
        SafeMode::DangerousOverride => "dangerous_override"@,
    }
}

/// The safe mode a stored name denotes, if any.
pub open spec fn safe_mode_from_name(n: Seq<char>) -> Option<SafeMode> {
    if n == "default"@ {
        Some(SafeMode::Default)
    } else if n == "always_safe"@ {
        Some(SafeMode::AlwaysSafe)
    } else if n == "dangerous_override"@ {
        Some(SafeMode::DangerousOverride)
    } else {
        None
    }
}

/// Stored name of a chat role.
pub open spec fn chat_role_name(r: RulesChatRole) -> Seq<char> {
    match r {
        RulesChatRole::User => "user"@,
        RulesChatRole::Assistant => "assistant"@,
        RulesChatRole::System => "system"@,
    }
}

/// The chat role a stored name denotes, if any.
pub open spec fn chat_role_from_name(n: Seq<char>) -> Option<RulesChatRole> {
    if n == "user"@ {
        Some(RulesChatRole::User)
    } else if n == "assistant"@ {
        Some(RulesChatRole::Assistant)
    } else if n == "system"@ {
        Some(RulesChatRole::System)
    } else {
        None
    }
}

impl RuleScope {
    /// The stored name of this scope.
    pub fn as_str(&self) -> (r: &'static str)
        ensures
            r@ == scope_name(*self),
    {
        match self {
            RuleScope::Global => "global",
            RuleScope::Account => "account",
            RuleScope::Sender => "sender",
            RuleScope::Domain => "domain",
        }
    }

    /// Parses a stored scope name; unknown names give `None`.
    pub fn from_str(value: &str) -> (r: Option<Self>)
        ensures
            r == scope_from_name(value@),
    {
        if str_eq(value, "global") {
            Some(RuleScope::Global)
        } else if str_eq(value, "account") {
            Some(RuleScope::Account)
        } else if str_eq(value, "sender") {
            Some(RuleScope::Sender)
        } else if str_eq(value, "domain") {
            Some(RuleScope::Domain)
        } else {
            None
        }
    }
}

impl SafeMode {
    /// The stored name of this safe mode.
    pub fn as_str(&self) -> (r: &'static str)
        ensures
            r@ == safe_mode_name(*self),
    {
        match self {
            SafeMode::Default => "default",
            SafeMode::AlwaysSafe => "always_safe",
            SafeMode::DangerousOverride => "dangerous_override",
        }
    }

    /// Parses a stored safe-mode name; unknown names give `None`.
    pub fn from_str(value: &str) -> (r: Option<Self>)
        ensures
            r == safe_mode_from_name(value@),
    {
        if str_eq(value, "default") {
            Some(SafeMode::Default)
        } else if str_eq(value, "always_safe") {
            Some(SafeMode::AlwaysSafe)
        } else if str_eq(value, "dangerous_override") {
            Some(SafeMode::DangerousOverride)
        } else {
            None
        }
    }
}

impl RulesChatRole {
    /// The stored name of this role.
    pub fn as_str(&self) -> (r: &'static str)
        ensures
            r@ == chat_role_name(*self),
    {
        match self {
            RulesChatRole::User => "user",
            RulesChatRole::Assistant => "assistant",
            RulesChatRole::System => "system",
        }
    }

    /// Parses a stored role name; unknown names give `None`.
    pub fn from_str(value: &str) -> (r: Option<Self>)
        ensures
            r == chat_role_from_name(value@),
    {
        if str_eq(value, "user") {
            Some(RulesChatRole::User)
        } else if str_eq(value, "assistant") {
            Some(RulesChatRole::Assistant)
        } else if str_eq(value, "system") {
            Some(RulesChatRole::System)
        } else {
            None
        }
    }
}

/// Names round-trip: parsing the stored name of a scope, safe mode or chat
/// role gives it back, and a name that parses is the stored name of its value.
pub proof fn lemma_stored_names_round_trip(s: RuleScope, m: SafeMode, r: RulesChatRole, n: Seq<char>)
    ensures
        scope_from_name(scope_name(s)) == Some(s),
        safe_mode_from_name(safe_mode_name(m)) == Some(m),
        chat_role_from_name(chat_role_name(r)) == Some(r),
        scope_from_name(n) matches Some(x) ==> scope_name(x) == n,
        safe_mode_from_name(n) matches Some(x) ==> safe_mode_name(x) == n,
        chat_role_from_name(n) matches Some(x) ==> chat_role_name(x) == n,
{
    reveal_strlit("global");
    reveal_strlit("account");
    reveal_strlit("sender");
    reveal_strlit("domain");
    reveal_strlit("default");
    reveal_strlit("always_safe");
    reveal_strlit("dangerous_override");
    reveal_strlit("user");
    reveal_strlit("assistant");
    reveal_strlit("system");
    assert("global"@[0] == 'g' && "account"@[0] == 'a' && "sender"@[0] == 's' && "domain"@[0] == 'd');
    assert("default"@[0] == 'd' && "always_safe"@[0] == 'a' && "dangerous_override"@[1] == 'a'
        && "default"@[1] == 'e');
    assert("user"@[0] == 'u' && "assistant"@[0] == 'a' && "system"@[0] == 's');
}

/// A deterministic rule as stored. Timestamps are milliseconds since the
/// Unix epoch; the JSON documents are carried as they are stored.
#[derive(Debug)]
pub struct DeterministicRule {
    pub id: String,
    pub org_id: i64,
    pub user_id: Option<i64>,
    pub name: String,
    pub description: Option<String>,
    pub scope: RuleScope,
    pub scope_ref: Option<String>,
    pub priority: i64,
    pub enabled: bool,
    pub disabled_reason: Option<String>,
    pub conditions_json: serde_json::Value,
    pub action_type: String,
    pub action_parameters_json: serde_json::Value,
    pub safe_mode: SafeMode,
    pub created_at: i64,
    pub updated_at: i64,
}

/// The fields of a deterministic rule to be created or written back.
#[derive(Debug)]
pub struct NewDeterministicRule {
    pub org_id: i64,
    pub user_id: Option<i64>,
    pub name: String,
    pub description: Option<String>,
    pub scope: RuleScope,
    pub scope_ref: Option<String>,
    pub priority: i64,
    pub enabled: bool,
    pub disabled_reason: Option<String>,
    pub conditions_json: serde_json::Value,
    pub action_type: String,
    pub action_parameters_json: serde_json::Value,
    pub safe_mode: SafeMode,
}

/// A natural-language rule handed to the model.
#[derive(Debug)]
pub struct LlmRule {
    pub id: String,
    pub org_id: i64,
    pub user_id: Option<i64>,
    pub name: String,
    pub description: Option<String>,
    pub scope: RuleScope,
    pub scope_ref: Option<String>,
    pub rule_text: String,
    pub enabled: bool,
    pub metadata_json: serde_json::Value,
    pub created_at: i64,
    pub updated_at: i64,
}

/// The fields of an LLM rule to be created or written back.
#[derive(Debug)]
pub struct NewLlmRule {
    pub org_id: i64,
    pub user_id: Option<i64>,
    pub name: String,
    pub description: Option<String>,
    pub scope: RuleScope,
    pub scope_ref: Option<String>,
    pub rule_text: String,
    pub enabled: bool,
    pub metadata_json: serde_json::Value,
}

/// A standing instruction for the model.
#[derive(Debug, Clone)]
pub struct Direction {
    pub id: String,
    pub org_id: i64,
    pub user_id: Option<i64>,
    pub content: String,
    pub enabled: bool,
    pub created_at: i64,
    pub updated_at: i64,
}

/// The fields of a direction to be created.
#[derive(Debug, Clone)]
pub struct NewDirection {
    pub org_id: i64,
    pub user_id: Option<i64>,
    pub content: String,
    pub enabled: bool,
}

/// A rules-assistant conversation.
#[derive(Debug, Clone)]
pub struct RulesChatSession {
    pub id: String,
    pub org_id: i64,
    pub user_id: i64,
    pub title: Option<String>,
    pub created_at: i64,
    pub updated_at: i64,
}

/// The fields of a chat session to be created.
#[derive(Debug, Clone)]
pub struct NewRulesChatSession {
    pub org_id: i64,
    pub user_id: i64,
    pub title: Option<String>,
}

/// One message of a rules-assistant conversation.
#[derive(Debug, Clone)]
pub struct RulesChatMessage {
    pub id: String,
    pub org_id: i64,
    pub user_id: i64,
    pub session_id: String,
    pub role: RulesChatRole,
    pub content: String,
    pub created_at: i64,
}

/// The fields of a chat message to be created.
#[derive(Debug, Clone)]
pub struct NewRulesChatMessage {
    pub org_id: i64,
    pub user_id: i64,
    pub session_id: String,
    pub role: RulesChatRole,
    pub content: String,
}

} // verus!
