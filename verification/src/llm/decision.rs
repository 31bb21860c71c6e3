//! Actions the model may choose, and extracting and checking its decision.

use vstd::prelude::*;

use crate::llm::types::ToolCallResult;
use crate::text::{
    chars_of, find_from, find_from_exec, find_seq, is_blank, is_blank_str, leading_ws,
    leading_ws_exec, occurs_at, owned, starts_with_seq, starts_with_vec, str_eq, string_from_chars, subvec,
    trim_start_seq, contains_seq, is_ws, lemma_find_from_sound,
};

verus! {

/// Supported actions that the model may return.
#[derive(Debug, Clone, Copy, PartialEq, Eq)]
pub enum ActionType {
    ApplyLabel,
    RemoveLabel,
    MarkRead,
    MarkUnread,
    Archive,
    Delete,
    Trash,
    Restore,
    Move,
    Star,
    Unstar,
    Forward,
    AutoReply,
    CreateTask,
    Snooze,
    AddNote,
    Escalate,
    NoAction,
}

/// How risky an action is.
#[derive(Debug, Clone, Copy, PartialEq, Eq)]
pub enum ActionDangerLevel {
    Safe,
    Reversible,
    Dangerous,
}

/// The snake-case name of an action.
pub open spec fn action_name(a: ActionType) -> Seq<char> {
    match a {
        ActionType::ApplyLabel => "apply_label"@,
        ActionType::RemoveLabel => "remove_label"@,
        ActionType::MarkRead => "mark_read"@,
        ActionType::MarkUnread => "mark_unread"@,
        ActionType::Archive => "archive"@,
        ActionType::Delete => "delete"@,
        ActionType::Trash => "trash"@,
        ActionType::Restore => "restore"@,
        ActionType::Move => "move"@,
        ActionType::Star => "star"@,
        ActionType::Unstar => "unstar"@,
        ActionType::Forward => "forward"@,
        ActionType::AutoReply => "auto_reply"@,
        ActionType::CreateTask => "create_task"@,
        ActionType::Snooze => "snooze"@,
        ActionType::AddNote => "add_note"@,
        ActionType::Escalate => "escalate"@,
        ActionType::NoAction => "none"@,
    }
}

/// The action a snake-case name denotes, if any.
pub open spec fn action_from_name(n: Seq<char>) -> Option<ActionType> {
    if n == "apply_label"@ {
        Some(ActionType::ApplyLabel)
    } else if n == "remove_label"@ {
        Some(ActionType::RemoveLabel)
    } else if n == "mark_read"@ {
        Some(ActionType::MarkRead)
    } else if n == "mark_unread"@ {
        Some(ActionType::MarkUnread)
    } else if n == "archive"@ {
        Some(ActionType::Archive)
    } else if n == "delete"@ {
        Some(ActionType::Delete)
    } else if n == "trash"@ {
        Some(ActionType::Trash)
    } else if n == "restore"@ {
        Some(ActionType::Restore)
    } else if n == "move"@ {
        Some(ActionType::Move)
    } else if n == "star"@ {
        Some(ActionType::Star)
    } else if n == "unstar"@ {
        Some(ActionType::Unstar)
    } else if n == "forward"@ {
        Some(ActionType::Forward)
    } else if n == "auto_reply"@ {
        Some(ActionType::AutoReply)
    } else if n == "create_task"@ {
        Some(ActionType::CreateTask)
    } else if n == "snooze"@ {
        Some(ActionType::Snooze)
    } else if n == "add_note"@ {
        Some(ActionType::AddNote)
    } else if n == "escalate"@ {
        Some(ActionType::Escalate)
    } else if n == "none"@ {
        Some(ActionType::NoAction)
    } else {
        None
    }
}

/// Danger classification: labelling, read state, archiving, trash, restore,
/// move and no-op are safe; starring, snoozing, notes and tasks are
/// reversible; deleting, forwarding, auto-replying and escalating are dangerous.
pub open spec fn danger_of(a: ActionType) -> ActionDangerLevel {
    match a {
        ActionType::ApplyLabel | ActionType::RemoveLabel | ActionType::MarkRead
        | ActionType::MarkUnread | ActionType::Archive | ActionType::Trash | ActionType::Restore
        | ActionType::Move | ActionType::NoAction => ActionDangerLevel::Safe,
        ActionType::Star | ActionType::Unstar | ActionType::Snooze | ActionType::AddNote
        | ActionType::CreateTask => ActionDangerLevel::Reversible,
        ActionType::Delete | ActionType::Forward | ActionType::AutoReply
        | ActionType::Escalate => ActionDangerLevel::Dangerous,
    }
}

impl ActionType {
    /// The snake-case name of this action.
    pub fn as_str(&self) -> (r: &'static str)
        ensures
            r@ == action_name(*self),
    {
        match self {
            ActionType::ApplyLabel => "apply_label",
            ActionType::RemoveLabel => "remove_label",
            ActionType::MarkRead => "mark_read",
            ActionType::MarkUnread => "mark_unread",
            ActionType::Archive => "archive",
            ActionType::Delete => "delete",
            ActionType::Trash => "trash",
            ActionType::Restore => "restore",
            ActionType::Move => "move",
            ActionType::Star => "star",
            ActionType::Unstar => "unstar",
            ActionType::Forward => "forward",
            ActionType::AutoReply => "auto_reply",
            ActionType::CreateTask => "create_task",
            ActionType::Snooze => "snooze",
            ActionType::AddNote => "add_note",
            ActionType::Escalate => "escalate",
            ActionType::NoAction => "none",
        }
    }

    /// The danger level of this action.
    pub fn danger_level(&self) -> (r: ActionDangerLevel)
        ensures
            r == danger_of(*self),
    {
        match self {
            ActionType::ApplyLabel | ActionType::RemoveLabel | ActionType::MarkRead
            | ActionType::MarkUnread | ActionType::Archive | ActionType::Trash
            | ActionType::Restore | ActionType::Move | ActionType::NoAction => ActionDangerLevel::Safe,
            ActionType::Star | ActionType::Unstar | ActionType::Snooze | ActionType::AddNote
            | ActionType::CreateTask => ActionDangerLevel::Reversible,
            ActionType::Delete | ActionType::Forward | ActionType::AutoReply
            | ActionType::Escalate => ActionDangerLevel::Dangerous,
        }
    }

    /// Parses a snake-case action name; unknown names are rejected.
    pub fn from_str(value: &str) -> (r: Result<Self, ()>)
        ensures
            r matches Ok(a) ==> action_from_name(value@) == Some(a),
            r is Err ==> action_from_name(value@) is None,
    {
        if str_eq(value, "apply_label") {
            Ok(ActionType::ApplyLabel)
        } else if str_eq(value, "remove_label") {
            Ok(ActionType::RemoveLabel)
        } else if str_eq(value, "mark_read") {
            Ok(ActionType::MarkRead)
        } else if str_eq(value, "mark_unread") {
            Ok(ActionType::MarkUnread)
        } else if str_eq(value, "archive") {
            Ok(ActionType::Archive)
        } else if str_eq(value, "delete") {
            Ok(ActionType::Delete)
        } else if str_eq(value, "trash") {
            Ok(ActionType::Trash)
        } else if str_eq(value, "restore") {
            Ok(ActionType::Restore)
        } else if str_eq(value, "move") {
            Ok(ActionType::Move)
        } else if str_eq(value, "star") {
            Ok(ActionType::Star)
        } else if str_eq(value, "unstar") {
            Ok(ActionType::Unstar)
        } else if str_eq(value, "forward") {
            Ok(ActionType::Forward)
        } else if str_eq(value, "auto_reply") {
            Ok(ActionType::AutoReply)
        } else if str_eq(value, "create_task") {
            Ok(ActionType::CreateTask)
        } else if str_eq(value, "snooze") {
            Ok(ActionType::Snooze)
        } else if str_eq(value, "add_note") {
            Ok(ActionType::AddNote)
        } else if str_eq(value, "escalate") {
            Ok(ActionType::Escalate)
        } else if str_eq(value, "none") {
            Ok(ActionType::NoAction)
        } else {
            Err(())
        }
    }
}

/// Action names round-trip: parsing the name of an action gives it back.
pub proof fn lemma_action_name_round_trip(a: ActionType)
    ensures
        action_from_name(action_name(a)) == Some(a),
{
    reveal_strlit("apply_label");
    reveal_strlit("remove_label");
    reveal_strlit("mark_read");
    reveal_strlit("mark_unread");
    reveal_strlit("archive");
    reveal_strlit("delete");
    reveal_strlit("trash");
    reveal_strlit("restore");
    reveal_strlit("move");
    reveal_strlit("star");
    reveal_strlit("unstar");
    reveal_strlit("forward");
    reveal_strlit("auto_reply");
    reveal_strlit("create_task");
    reveal_strlit("snooze");
    reveal_strlit("add_note");
    reveal_strlit("escalate");
    reveal_strlit("none");
    assert("apply_label"@[0] == 'a' && "apply_label"@[1] == 'p');
    assert("remove_label"@[0] == 'r' && "remove_label"@[2] == 'm');
    assert("mark_read"@[5] == 'r' && "mark_unread"@[5] == 'u');
    assert("archive"@[0] == 'a' && "archive"@[1] == 'r' && "add_note"@[1] == 'd'
        && "auto_reply"@[1] == 'u');
    assert("delete"@[0] == 'd');
    assert("trash"@[0] == 't');
    assert("restore"@[2] == 's');
    assert("move"@[0] == 'm' && "move"@[1] == 'o' && "mark_read"@[1] == 'a');
    assert("star"@[0] == 's' && "star"@[1] == 't' && "snooze"@[1] == 'n');
    assert("unstar"@[0] == 'u');
    assert("forward"@[0] == 'f');
    assert("create_task"@[0] == 'c');
    assert("escalate"@[0] == 'e');
    assert("none"@[0] == 'n');
}

/// Identifies the message a decision is about.
#[derive(Debug, Clone, PartialEq, Eq)]
pub struct MessageRef {
    pub provider: String,
    pub account_id: String,
    pub thread_id: String,
    pub message_id: String,
}

/// Placeholder for telemetry the model may return.
#[derive(Debug, Clone, Copy, PartialEq, Eq, Default)]
pub struct TelemetryPlaceholder {}

// ---------------------------------------------------------------------------
// Validation
// ---------------------------------------------------------------------------

/// Why a decision was rejected. Confidence values are checked by the caller
/// against `[0.0, 1.0]`; a rejected confidence is carried as the bit pattern
/// of its IEEE-754 double (`f64::to_bits`), so the caller gets back the exact
/// value it checked.
#[derive(Debug, Clone, Copy, PartialEq, Eq)]
pub enum DecisionValidationError {
    EmptyField(&'static str),
    InvalidConfidence(u64),
    InvalidAlternativeConfidence { index: usize, confidence: u64 },
}

/// One considered alternative as validation sees it: its confidence (as
/// double bits), the caller's verdict on its range, and its reason.
#[derive(Debug, Clone)]
pub struct AlternativeCheck {
    pub confidence: u64,
    pub confidence_in_range: bool,
    pub why_not: String,
}

/// The first problem among the alternatives from position `i` on: a
/// confidence out of range, or else a blank reason.
pub open spec fn alternatives_problem(alts: Seq<AlternativeCheck>, i: int) -> Option<(int, bool)>
    decreases alts.len() - i,
{
    if i < 0 || i >= alts.len() {
        None
    } else if !alts[i].confidence_in_range {
        Some((i, true))
    } else if is_blank(alts[i].why_not@) {
        Some((i, false))
    } else {
        alternatives_problem(alts, i + 1)
    }
}

/// The verdict of validation, in the order the fields are checked: the four
/// reference fields and the rationale must not be blank, the confidence must
/// be in range, and each alternative in turn must have its confidence in range
/// and a non-blank reason.
pub open spec fn validation_verdict(
    m: MessageRef,
    rationale: Seq<char>,
    confidence: u64,
    confidence_in_range: bool,
    alts: Seq<AlternativeCheck>,
) -> Result<(), DecisionValidationError> {
    if is_blank(m.provider@) {
        Err(DecisionValidationError::EmptyField("message_ref.provider"))
    } else if is_blank(m.account_id@) {
        Err(DecisionValidationError::EmptyField("message_ref.account_id"))
    } else if is_blank(m.thread_id@) {
        Err(DecisionValidationError::EmptyField("message_ref.thread_id"))
    } else if is_blank(m.message_id@) {
        Err(DecisionValidationError::EmptyField("message_ref.message_id"))
    } else if is_blank(rationale) {
        Err(DecisionValidationError::EmptyField("decision.rationale"))
    } else if !confidence_in_range {
        Err(DecisionValidationError::InvalidConfidence(confidence))
    } else {
        match alternatives_problem(alts, 0) {
            None => Ok(()),
            Some((i, true)) => Err(
                DecisionValidationError::InvalidAlternativeConfidence { index: i as usize, confidence: alts[i].confidence },
            ),
            Some((_, false)) => Err(DecisionValidationError::EmptyField("considered_alternatives.why_not")),
        }
    }
}

/// No alternative from position `i` on has a problem exactly when each of
/// them has its confidence in range and a non-blank reason.
proof fn lemma_alternatives_problem_none(alts: Seq<AlternativeCheck>, i: int)
    requires
        0 <= i <= alts.len(),
    ensures
        alternatives_problem(alts, i) is None <==> forall|j: int|
            i <= j < alts.len() ==> (#[trigger] alts[j]).confidence_in_range && !is_blank(alts[j].why_not@),
    decreases alts.len() - i,
{
    if i < alts.len() {
        lemma_alternatives_problem_none(alts, i + 1);
    }
}

/// A decision is accepted exactly when the four fields naming its message and
/// its rationale are all non-blank, its confidence is in range, and every
/// alternative has its confidence in range and a non-blank reason. Blank
/// fields are reported in order: in particular a decision whose provider,
/// account and thread are given but whose message id is blank is refused for
/// that message id.
pub proof fn lemma_decision_validation(
    m: MessageRef,
    rationale: Seq<char>,
    confidence: u64,
    confidence_in_range: bool,
    alts: Seq<AlternativeCheck>,
)
    ensures
        validation_verdict(m, rationale, confidence, confidence_in_range, alts) is Ok <==> {
            &&& !is_blank(m.provider@)
            &&& !is_blank(m.account_id@)
            &&& !is_blank(m.thread_id@)
            &&& !is_blank(m.message_id@)
            &&& !is_blank(rationale)
            &&& confidence_in_range
            &&& forall|j: int|
                0 <= j < alts.len() ==> (#[trigger] alts[j]).confidence_in_range && !is_blank(alts[j].why_not@)
        },
        !is_blank(m.provider@) && !is_blank(m.account_id@) && !is_blank(m.thread_id@) && is_blank(m.message_id@)
            ==> validation_verdict(m, rationale, confidence, confidence_in_range, alts) == Err::<(), DecisionValidationError>(
            DecisionValidationError::EmptyField("message_ref.message_id"),
        ),
        !confidence_in_range && !is_blank(m.provider@) && !is_blank(m.account_id@) && !is_blank(m.thread_id@)
            && !is_blank(m.message_id@) && !is_blank(rationale) ==> validation_verdict(
            m,
            rationale,
            confidence,
            confidence_in_range,
            alts,
        ) == Err::<(), DecisionValidationError>(DecisionValidationError::InvalidConfidence(confidence)),
{
    lemma_alternatives_problem_none(alts, 0);
}

/// Validates a decision whose confidences the caller has already compared
/// with `[0.0, 1.0]`; `confidence` is the decision's confidence as double
/// bits.
#[verifier::loop_isolation(false)]
pub fn validate_decision(
    message_ref: &MessageRef,
    rationale: &str,
    confidence: u64,
    confidence_in_range: bool,
    alternatives: &Vec<AlternativeCheck>,
) -> (r: Result<(), DecisionValidationError>)
    ensures
        r == validation_verdict(*message_ref, rationale@, confidence, confidence_in_range, alternatives@),
{
    if is_blank_str(message_ref.provider.as_str()) {
        return Err(DecisionValidationError::EmptyField("message_ref.provider"));
    }
    if is_blank_str(message_ref.account_id.as_str()) {
        return Err(DecisionValidationError::EmptyField("message_ref.account_id"));
    }
    if is_blank_str(message_ref.thread_id.as_str()) {
        return Err(DecisionValidationError::EmptyField("message_ref.thread_id"));
    }
    if is_blank_str(message_ref.message_id.as_str()) {
        return Err(DecisionValidationError::EmptyField("message_ref.message_id"));
    }
    if is_blank_str(rationale) {
        return Err(DecisionValidationError::EmptyField("decision.rationale"));
    }
    if !confidence_in_range {
        return Err(DecisionValidationError::InvalidConfidence(confidence));
    }
    let mut i: usize = 0;
    while i < alternatives.len()
        invariant
            i <= alternatives@.len(),
            alternatives_problem(alternatives@, 0) == alternatives_problem(alternatives@, i as int),
        decreases alternatives@.len() - i,
    {
        if !alternatives[i].confidence_in_range {
            return Err(
                DecisionValidationError::InvalidAlternativeConfidence { index: i, confidence: alternatives[i].confidence },
            );
        }
        if is_blank_str(alternatives[i].why_not.as_str()) {
            return Err(DecisionValidationError::EmptyField("considered_alternatives.why_not"));
        }
        i = i + 1;
    }
    Ok(())
}

// ---------------------------------------------------------------------------
// Extracting the JSON object from a reply
// ---------------------------------------------------------------------------

/// Errors while taking a decision out of a model reply.
#[derive(Debug)]
pub enum DecisionParseError {
    NoJsonFound,
    MalformedJson,
    Json(serde_json::Error),
    Validation(DecisionValidationError),
    NoToolCall,
    WrongToolName { expected: String, actual: String },
}

/// The code-fence marker.
pub open spec fn fence() -> Seq<char> {
    seq!['`', '`', '`']
}

/// The language hint that may follow an opening fence.
pub open spec fn json_hint() -> Seq<char> {
    seq!['j', 's', 'o', 'n']
}

/// The text between the first two code fences; a leading `json` hint and the
/// white space after it are dropped.
pub open spec fn fenced_content(t: Seq<char>) -> Option<Seq<char>> {
    match find_seq(t, fence()) {
        None => None,
        Some(f) => match find_from(t, fence(), f + 3) {
            None => None,
            Some(e) => {
                let c = t.subrange(f + 3, e);
                if starts_with_seq(c, json_hint()) {
                    Some(trim_start_seq(c.subrange(4, c.len() as int)))
                } else {
                    Some(c)
                }
            },
        },
    }
}

/// Scans from position `i` with `depth` unclosed braces, inside a string or
/// not, just after a backslash or not. The result is the position just past
/// the brace that closes the outermost one, or `None` when the text ends first
/// or a closing brace has nothing to close.
pub open spec fn brace_scan(t: Seq<char>, i: int, depth: nat, in_string: bool, escape: bool) -> Option<int>
    decreases t.len() - i,
{
    if i < 0 || i >= t.len() {
        None
    } else {
        let ch = t[i];
        if in_string {
            if escape {
                brace_scan(t, i + 1, depth, true, false)
            } else if ch == '\\' {
                brace_scan(t, i + 1, depth, true, true)
            } else if ch == '"' {
                brace_scan(t, i + 1, depth, false, false)
            } else {
                brace_scan(t, i + 1, depth, true, false)
            }
        } else if ch == '"' {
            brace_scan(t, i + 1, depth, true, escape)
        } else if ch == '{' {
            brace_scan(t, i + 1, depth + 1, false, escape)
        } else if ch == '}' {
            if depth == 0 {
                None
            } else if depth == 1 {
                Some(i + 1)
            } else {
                brace_scan(t, i + 1, (depth - 1) as nat, false, escape)
            }
        } else {
            brace_scan(t, i + 1, depth, false, escape)
        }
    }
}

/// What extraction yields: the fenced content if there is a fence pair, else
/// the balanced object starting at the first `{`.
pub open spec fn extraction(t: Seq<char>) -> Result<Seq<char>, DecisionParseError> {
    match fenced_content(t) {
        Some(c) => Ok(c),
        None => match find_seq(t, seq!['{']) {
            None => Err(DecisionParseError::NoJsonFound),
            Some(s) => match brace_scan(t, s, 0, false, false) {
                Some(e) => Ok(t.subrange(s, e)),
                None => Err(DecisionParseError::MalformedJson),
            },
        },
    }
}

/// The content of the first code-fence pair, without a `json` hint.
pub fn json_in_code_fence(response: &str) -> (r: Option<String>)
    ensures
        r matches Some(c) ==> fenced_content(response@) == Some(c@),
        r is None ==> fenced_content(response@) is None,
{
    let t = chars_of(response);
    let mut fv: Vec<char> = Vec::new();
    fv.push('`');
    fv.push('`');
    fv.push('`');
    assert(fv@ =~= fence());
    let f = match find_from_exec(&t, &fv, 0) {
        Some(f) => f,
        None => return None,
    };
    proof {
        crate::text::lemma_find_from_sound(t@, fv@, 0);
        assert(occurs_at(t@, fv@, f as int));
        assert(f + 3 <= t@.len());
        assert(t@.len() == t.len());
    }
    let content_start = f + 3;
    let e = match find_from_exec(&t, &fv, content_start) {
        Some(e) => e,
        None => return None,
    };
    proof {
        crate::text::lemma_find_from_sound(t@, fv@, content_start as int);
    }
    let c = subvec(&t, content_start, e);
    let mut hv: Vec<char> = Vec::new();
    hv.push('j');
    hv.push('s');
    hv.push('o');
    hv.push('n');
    assert(hv@ =~= json_hint());
    if starts_with_vec(&c, &hv) {
        let rest = subvec(&c, 4, c.len());
        let skip = leading_ws_exec(&rest);
        let trimmed = subvec(&rest, skip, rest.len());
        Some(string_from_chars(&trimmed))
    } else {
        Some(string_from_chars(&c))
    }
}

/// Position just past the brace closing the object opened at `start`, or
/// `None` when the braces do not balance.
pub fn balanced_brace_slice(text: &Vec<char>, start: usize) -> (r: Option<(usize, usize)>)
    ensures
        r matches Some((s, e)) ==> s == start && brace_scan(text@, start as int, 0, false, false) == Some(e as int) && start < e <= text@.len(),
        r is None ==> brace_scan(text@, start as int, 0, false, false) is None,
{
    let mut depth: usize = 0;
    let mut in_string = false;
    let mut escape = false;
    let mut i = start;
    proof {
        lemma_brace_scan_bounds(text@, start as int, 0, false, false);
    }
    while i < text.len()
        invariant
            start <= i,
            depth <= i - start,
            !in_string ==> !escape,
            brace_scan(text@, start as int, 0, false, false) == brace_scan(text@, i as int, depth as nat, in_string, escape),
            forall|k: int| brace_scan(text@, i as int, depth as nat, in_string, escape) == Some(k) ==> i < k <= text@.len(),
        decreases text.len() - i,
    {
        let ch = text[i];
        proof {
            lemma_brace_scan_bounds(text@, i as int + 1, 0, false, false);
        }
        if in_string {
            if escape {
                escape = false;
            } else if ch == '\\' {
                escape = true;
            } else if ch == '"' {
                in_string = false;
            }
        } else if ch == '"' {
            in_string = true;
        } else if ch == '{' {
            depth = depth + 1;
        } else if ch == '}' {
            if depth == 0 {
                return None;
            }
            if depth == 1 {
                return Some((start, i + 1));
            }
            depth = depth - 1;
        }
        proof {
            lemma_brace_scan_bounds(text@, i as int + 1, depth as nat, in_string, escape);
        }
        i = i + 1;
    }
    None
}

/// A position found by the scan lies after where the scan started.
proof fn lemma_brace_scan_bounds(t: Seq<char>, i: int, depth: nat, in_string: bool, escape: bool)
    ensures
        forall|k: int| brace_scan(t, i, depth, in_string, escape) == Some(k) ==> i < k <= t.len(),
    decreases t.len() - i,
{
    if 0 <= i < t.len() {
        let ch = t[i];
        lemma_brace_scan_bounds(t, i + 1, depth, true, false);
        lemma_brace_scan_bounds(t, i + 1, depth, true, true);
        lemma_brace_scan_bounds(t, i + 1, depth, false, false);
        lemma_brace_scan_bounds(t, i + 1, depth, true, escape);
        lemma_brace_scan_bounds(t, i + 1, depth, false, escape);
        lemma_brace_scan_bounds(t, i + 1, depth + 1, false, escape);
        if depth >= 1 {
            lemma_brace_scan_bounds(t, i + 1, (depth - 1) as nat, false, escape);
        }
    }
}

/// The brace scan stops just past a closing brace.
proof fn lemma_brace_scan_ends_at_close(t: Seq<char>, i: int, depth: nat, in_string: bool, escape: bool)
    ensures
        brace_scan(t, i, depth, in_string, escape) matches Some(k) ==> 0 < k <= t.len() && t[k - 1] == '}',
    decreases t.len() - i,
{
    if 0 <= i < t.len() {
        lemma_brace_scan_ends_at_close(t, i + 1, depth, true, false);
        lemma_brace_scan_ends_at_close(t, i + 1, depth, true, true);
        lemma_brace_scan_ends_at_close(t, i + 1, depth, false, false);
        lemma_brace_scan_ends_at_close(t, i + 1, depth, true, escape);
        lemma_brace_scan_ends_at_close(t, i + 1, depth, false, escape);
        lemma_brace_scan_ends_at_close(t, i + 1, depth + 1, false, escape);
        if depth >= 1 {
            lemma_brace_scan_ends_at_close(t, i + 1, (depth - 1) as nat, false, escape);
        }
    }
}

proof fn lemma_leading_ws_bound(s: Seq<char>)
    ensures
        leading_ws(s) <= s.len(),
    decreases s.len(),
{
    if s.len() > 0 && is_ws(s[0]) {
        lemma_leading_ws_bound(s.subrange(1, s.len() as int));
    }
}

proof fn lemma_subrange_contained(t: Seq<char>, a: int, b: int)
    requires
        0 <= a <= b <= t.len(),
    ensures
        contains_seq(t, t.subrange(a, b)),
{
    assert(occurs_at(t, t.subrange(a, b), a));
}

/// What extraction takes out of a reply is text of the reply itself. Without
/// a fence pair it is an object: it starts with `{` and ends with `}`; and a
/// reply with neither a fence pair nor any `{` holds no JSON.
pub proof fn lemma_extraction_is_from_reply(t: Seq<char>)
    ensures
        extraction(t) matches Ok(x) ==> contains_seq(t, x),
        fenced_content(t) is None ==> (extraction(t) matches Ok(x) ==> x.len() >= 2 && x[0] == '{' && x.last()
            == '}'),
        fenced_content(t) is None && (forall|j: int| 0 <= j < t.len() ==> t[j] != '{') ==> extraction(t) matches Err(
            DecisionParseError::NoJsonFound,
        ),
{
    lemma_find_from_sound(t, seq!['{'], 0);
    lemma_find_from_sound(t, fence(), 0);
    match fenced_content(t) {
        Some(c) => {
            let f = find_seq(t, fence())->0;
            lemma_find_from_sound(t, fence(), f + 3);
            let e = find_from(t, fence(), f + 3)->0;
            let cc = t.subrange(f + 3, e);
            if starts_with_seq(cc, json_hint()) {
                let rest = cc.subrange(4, cc.len() as int);
                lemma_leading_ws_bound(rest);
                assert(c == t.subrange(f + 3 + 4 + leading_ws(rest), e));
                lemma_subrange_contained(t, f + 3 + 4 + leading_ws(rest), e);
            } else {
                lemma_subrange_contained(t, f + 3, e);
            }
        },
        None => {
            match find_seq(t, seq!['{']) {
                None => {},
                Some(st) => {
                    assert(t.subrange(st, st + 1) == seq!['{']);
                    assert(t[st] == t.subrange(st, st + 1)[0]);
                    lemma_brace_scan_bounds(t, st + 1, 1, false, false);
                    lemma_brace_scan_ends_at_close(t, st, 0, false, false);
                    lemma_brace_scan_bounds(t, st, 0, false, false);
                    if brace_scan(t, st, 0, false, false) is Some {
                        let e = brace_scan(t, st, 0, false, false)->0;
                        lemma_subrange_contained(t, st, e);
                    }
                },
            }
        },
    }
}

/// Takes the JSON object out of a model reply that may wrap it in prose or a
/// code fence: the fenced content when there is a fence pair, else the
/// balanced object starting at the first `{`.
pub fn extract_json_from_response(response: &str) -> (r: Result<String, DecisionParseError>)
    ensures
        r matches Ok(s) ==> extraction(response@) matches Ok(x) && x == s@,
        r matches Err(DecisionParseError::NoJsonFound) ==> extraction(response@) matches Err(DecisionParseError::NoJsonFound),
        r matches Err(DecisionParseError::MalformedJson) ==> extraction(response@) matches Err(DecisionParseError::MalformedJson),
        r is Err ==> (r matches Err(DecisionParseError::NoJsonFound) || r matches Err(DecisionParseError::MalformedJson)),
        extraction(response@) is Ok ==> r is Ok,
{
    if let Some(slice) = json_in_code_fence(response) {
        return Ok(slice);
    }
    let t = chars_of(response);
    let mut open: Vec<char> = Vec::new();
    open.push('{');
    assert(open@ =~= seq!['{']);
    let start = match find_from_exec(&t, &open, 0) {
        Some(s) => s,
        None => return Err(DecisionParseError::NoJsonFound),
    };
    proof {
        crate::text::lemma_find_from_sound(t@, open@, 0);
    }
    match balanced_brace_slice(&t, start) {
        Some((s, e)) => {
            let v = subvec(&t, s, e);
            Ok(string_from_chars(&v))
        },
        None => Err(DecisionParseError::MalformedJson),
    }
}

// ---------------------------------------------------------------------------
// Tool calls
// ---------------------------------------------------------------------------

/// Picks the tool call that carries the decision: the first one, which must
/// name the expected tool.
pub fn decision_tool_call<'a>(tool_calls: &'a Vec<ToolCallResult>, expected_tool_name: &str) -> (r: Result<&'a ToolCallResult, DecisionParseError>)
    ensures
        tool_calls@.len() == 0 <==> r matches Err(DecisionParseError::NoToolCall),
        r matches Ok(c) ==> c == tool_calls@[0] && c.fn_name@ == expected_tool_name@,
        r matches Err(DecisionParseError::WrongToolName { expected, actual }) ==> tool_calls@.len() > 0
            && expected@ == expected_tool_name@ && actual@ == tool_calls@[0].fn_name@ && actual@ != expected@,
        r is Err ==> (r matches Err(DecisionParseError::NoToolCall) || r matches Err(DecisionParseError::WrongToolName { .. })),
        tool_calls@.len() > 0 && tool_calls@[0].fn_name@ == expected_tool_name@ ==> r is Ok,
{
    if tool_calls.len() == 0 {
        return Err(DecisionParseError::NoToolCall);
    }
    let first = &tool_calls[0];
    if !str_eq(first.fn_name.as_str(), expected_tool_name) {
        return Err(DecisionParseError::WrongToolName {
            expected: owned(expected_tool_name),
            actual: first.fn_name.clone(),
        });
    }
    Ok(first)
}

} // verus!
