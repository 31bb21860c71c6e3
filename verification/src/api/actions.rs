//! Actions endpoints: reading list filters from the query string, paging, and
//! the protocol that queues the undo of a completed action.

use vstd::prelude::*;

use crate::api::error::{is_rejection, rejected, Rejection, STATUS_BAD_REQUEST, STATUS_INTERNAL_ERROR, STATUS_NOT_FOUND};
use crate::json::{empty_json_object, is_empty_json_object};
use crate::text::{
    chars_of, ends_with_seq, is_blank, is_blank_str, owned, parse_i64_spec, parse_i64_vec, push_all, push_str,
    split_char, split_char_vec, str_eq, string_from_chars, subvec, trim_seq, trim_vec,
};

verus! {

// ---------------------------------------------------------------------------
// Action status
// ---------------------------------------------------------------------------

/// Where an action stands in its life.
#[derive(Debug, Clone, Copy, PartialEq, Eq)]
pub enum ActionStatus {
    Queued,
    Executing,
    Completed,
    Failed,
    Canceled,
    Rejected,
}

/// Stored name of a status.
pub open spec fn action_status_name(s: ActionStatus) -> Seq<char> {
    match s {
        ActionStatus::Queued => "queued"@,
        ActionStatus::Executing => "executing"@,
        ActionStatus::Completed => "completed"@,
        ActionStatus::Failed => "failed"@,
        ActionStatus::Canceled => "canceled"@,
        ActionStatus::Rejected => "rejected"@,
    }
}

/// The status a stored name denotes, if any.
pub open spec fn action_status_from_name(n: Seq<char>) -> Option<ActionStatus> {
    if n == "queued"@ {
        Some(ActionStatus::Queued)
    } else if n == "executing"@ {
        Some(ActionStatus::Executing)
    } else if n == "completed"@ {
        Some(ActionStatus::Completed)
    } else if n == "failed"@ {
        Some(ActionStatus::Failed)
    } else if n == "canceled"@ {
        Some(ActionStatus::Canceled)
    } else if n == "rejected"@ {
        Some(ActionStatus::Rejected)
    } else {
        None
    }
}

/// The variant name of a status, as debug output shows it.
pub open spec fn action_status_debug(s: ActionStatus) -> Seq<char> {
    match s {
        ActionStatus::Queued => "Queued"@,
        ActionStatus::Executing => "Executing"@,
        ActionStatus::Completed => "Completed"@,
        ActionStatus::Failed => "Failed"@,
        ActionStatus::Canceled => "Canceled"@,
        ActionStatus::Rejected => "Rejected"@,
    }
}

impl ActionStatus {
    /// Stored name of this status.
    pub fn as_str(&self) -> (r: &'static str)
        ensures
            r@ == action_status_name(*self),
    {
        match self {
            ActionStatus::Queued => "queued",
            ActionStatus::Executing => "executing",
            ActionStatus::Completed => "completed",
            ActionStatus::Failed => "failed",
            ActionStatus::Canceled => "canceled",
            ActionStatus::Rejected => "rejected",
        }
    }

    /// The status a stored name denotes, if any.
    pub fn from_str(s: &str) -> (r: Option<ActionStatus>)
        ensures
            r == action_status_from_name(s@),
    {
        if str_eq(s, "queued") {
            Some(ActionStatus::Queued)
        } else if str_eq(s, "executing") {
            Some(ActionStatus::Executing)
        } else if str_eq(s, "completed") {
            Some(ActionStatus::Completed)
        } else if str_eq(s, "failed") {
            Some(ActionStatus::Failed)
        } else if str_eq(s, "canceled") {
            Some(ActionStatus::Canceled)
        } else if str_eq(s, "rejected") {
            Some(ActionStatus::Rejected)
        } else {
            None
        }
    }

    /// The variant name of this status.
    pub fn debug_name(&self) -> (r: &'static str)
        ensures
            r@ == action_status_debug(*self),
    {
        match self {
            ActionStatus::Queued => "Queued",
            ActionStatus::Executing => "Executing",
            ActionStatus::Completed => "Completed",
            ActionStatus::Failed => "Failed",
            ActionStatus::Canceled => "Canceled",
            ActionStatus::Rejected => "Rejected",
        }
    }
}

/// Every status reads back from its stored name.
pub proof fn lemma_action_status_round_trip(s: ActionStatus)
    ensures
        action_status_from_name(action_status_name(s)) == Some(s),
{
    reveal_strlit("queued");
    reveal_strlit("executing");
    reveal_strlit("completed");
    reveal_strlit("failed");
    reveal_strlit("canceled");
    reveal_strlit("rejected");
    assert("queued"@[0] == 'q' && "executing"@[0] == 'e' && "completed"@[0] == 'c');
    assert("failed"@[0] == 'f' && "canceled"@[0] == 'c' && "rejected"@[0] == 'r');
    assert("completed"@[1] == 'o' && "canceled"@[1] == 'a');
}

// ---------------------------------------------------------------------------
// List filters
// ---------------------------------------------------------------------------

/// `s` with every trailing `c` removed (`str::trim_end_matches` with a `char`).
pub open spec fn trim_end_char(s: Seq<char>, c: char) -> Seq<char>
    decreases s.len(),
{
    if s.len() > 0 && s.last() == c {
        trim_end_char(s.drop_last(), c)
    } else {
        s
    }
}

/// Milliseconds in an hour.
pub const MS_PER_HOUR: i64 = 3_600_000;

/// Milliseconds in a day.
pub const MS_PER_DAY: i64 = 86_400_000;

/// The length of a time window such as `24h` or `7d`, in milliseconds: a
/// number of hours or days; `None` when the text is no such window.
pub open spec fn time_window_ms(tw: Seq<char>) -> Option<int> {
    if tw.len() > 0 && tw.last() == 'h' {
        match parse_i64_spec(trim_end_char(tw, 'h')) {
            Some(n) => Some(n * MS_PER_HOUR),
            None => None,
        }
    } else if tw.len() > 0 && tw.last() == 'd' {
        match parse_i64_spec(trim_end_char(tw, 'd')) {
            Some(n) => Some(n * MS_PER_DAY),
            None => None,
        }
    } else {
        None
    }
}

/// The window's start, counted back from `now_ms`, fits in an `i64`.
pub open spec fn time_window_fits(time_window: Option<&str>, now_ms: i64) -> bool {
    match time_window {
        Some(tw) => match time_window_ms(tw@) {
            Some(d) => i64::MIN <= now_ms - d <= i64::MAX,
            None => true,
        },
        None => true,
    }
}

fn trim_end_char_exec(s: &Vec<char>, c: char) -> (r: Vec<char>)
    ensures
        r@ == trim_end_char(s@, c),
{
    let mut end = s.len();
    assert(s@.take(end as int) =~= s@);
    while end > 0 && s[end - 1] == c
        invariant
            end <= s.len(),
            trim_end_char(s@.take(end as int), c) == trim_end_char(s@, c),
        decreases end,
    {
        assert(s@.take(end as int).drop_last() =~= s@.take(end - 1));
        end = end - 1;
    }
    assert(s@.take(s.len() as int) =~= s@);
    let r = subvec(s, 0, end);
    assert(r@ =~= s@.take(end as int));
    r
}

/// The start of a time window (`24h`, `7d`, ...) ending at `now_ms`, in epoch
/// milliseconds; `None` for no window, an empty one or one that is not a
/// number of hours or days.
pub fn parse_time_window(time_window: Option<&str>, now_ms: i64) -> (r: Option<i64>)
    requires
        time_window_fits(time_window, now_ms),
    ensures
        r == match time_window {
            Some(tw) => match time_window_ms(tw@) {
                Some(d) => Some((now_ms - d) as i64),
                None => None::<i64>,
            },
            None => None,
        },
{
    let tw = match time_window {
        Some(t) => t,
        None => {
            return None;
        },
    };
    let v = chars_of(tw);
    if v.len() == 0 {
        return None;
    }
    let last = v[v.len() - 1];
    let unit: i64 = if last == 'h' {
        MS_PER_HOUR
    } else if last == 'd' {
        MS_PER_DAY
    } else {
        return None;
    };
    let digits = trim_end_char_exec(&v, last);
    match parse_i64_vec(&digits) {
        Some(n) => {
            let span: i128 = n as i128 * unit as i128;
            let start: i128 = now_ms as i128 - span;
            Some(start as i64)
        },
        None => None,
    }
}

/// The action types listed, comma-separated, in a filter; `None` when absent
/// or empty.
pub open spec fn action_types_spec(s: Seq<char>) -> Seq<Seq<char>> {
    split_char(s, ',').map_values(|p: Seq<char>| trim_seq(p))
}

/// Reads a comma-separated list of action types, trimming each.
pub fn parse_action_types(action_type: Option<&str>) -> (r: Option<Vec<String>>)
    ensures
        match action_type {
            Some(s) if s@.len() > 0 => r matches Some(v) && v@.map_values(|t: String| t@) == action_types_spec(
                s@,
            ),
            _ => r is None,
        },
{
    let at = match action_type {
        Some(s) => s,
        None => {
            return None;
        },
    };
    let v = chars_of(at);
    if v.len() == 0 {
        return None;
    }
    let pieces = split_char_vec(&v, ',');
    let ghost pv = pieces@.map_values(|p: Vec<char>| p@);
    let mut out: Vec<String> = Vec::new();
    let mut i: usize = 0;
    while i < pieces.len()
        invariant
            i <= pieces.len(),
            pv == pieces@.map_values(|p: Vec<char>| p@),
            out@.len() == i,
            forall|j: int| 0 <= j < i ==> (#[trigger] out@[j])@ == trim_seq(pv[j]),
        decreases pieces.len() - i,
    {
        let t = trim_vec(&pieces[i]);
        out.push(string_from_chars(&t));
        i = i + 1;
    }
    assert(out@.map_values(|t: String| t@) =~= pv.map_values(|p: Seq<char>| trim_seq(p)));
    Some(out)
}

/// The statuses named in a comma-separated list, unknown names skipped.
pub open spec fn known_statuses(parts: Seq<Seq<char>>) -> Seq<ActionStatus>
    decreases parts.len(),
{
    if parts.len() == 0 {
        Seq::empty()
    } else {
        let rest = known_statuses(parts.drop_last());
        match action_status_from_name(trim_seq(parts.last())) {
            Some(st) => rest.push(st),
            None => rest,
        }
    }
}

/// A window of `n` hours lasts `n` times 3,600,000 ms and one of `n` days `n`
/// times 86,400,000 ms, the unit being the window's last letter; any other
/// ending, or an empty text, is no window.
pub proof fn lemma_time_window_units(tw: Seq<char>)
    ensures
        tw.len() > 0 && tw.last() == 'h' ==> (parse_i64_spec(trim_end_char(tw, 'h')) matches Some(n) ==> time_window_ms(tw)
            == Some(n * 3_600_000)),
        tw.len() > 0 && tw.last() == 'd' ==> (parse_i64_spec(trim_end_char(tw, 'd')) matches Some(n) ==> time_window_ms(tw)
            == Some(n * 86_400_000)),
        tw.len() == 0 || (tw.last() != 'h' && tw.last() != 'd') ==> time_window_ms(tw) is None,
{
}

/// A status filter keeps exactly the known names: every status it yields is
/// named by some part of the list (ignoring surrounding white space), every
/// part that names a status contributes it, and it yields at most one status
/// per part.
pub proof fn lemma_known_statuses_exact(parts: Seq<Seq<char>>)
    ensures
        known_statuses(parts).len() <= parts.len(),
        forall|k: int|
            #![trigger known_statuses(parts)[k]]
            0 <= k < known_statuses(parts).len() ==> exists|j: int|
                0 <= j < parts.len() && action_status_from_name(trim_seq(#[trigger] parts[j])) == Some(
                    known_statuses(parts)[k],
                ),
        forall|j: int|
            0 <= j < parts.len() && (#[trigger] action_status_from_name(trim_seq(parts[j]))) is Some
                ==> known_statuses(parts).contains(action_status_from_name(trim_seq(parts[j]))->0),
    decreases parts.len(),
{
    if parts.len() > 0 {
        let init = parts.drop_last();
        lemma_known_statuses_exact(init);
        let rest = known_statuses(init);
        let r = known_statuses(parts);
        assert forall|k: int| #![trigger r[k]] 0 <= k < r.len() implies exists|j: int|
            0 <= j < parts.len() && action_status_from_name(trim_seq(#[trigger] parts[j])) == Some(r[k]) by {
            if k < rest.len() {
                assert(r[k] == rest[k]);
                let j = choose|j: int|
                    0 <= j < init.len() && action_status_from_name(trim_seq(#[trigger] init[j])) == Some(rest[k]);
                assert(parts[j] == init[j]);
            } else {
                assert(parts[parts.len() - 1] == parts.last());
            }
        }
        assert forall|j: int|
            0 <= j < parts.len() && (#[trigger] action_status_from_name(trim_seq(parts[j]))) is Some implies r.contains(
            action_status_from_name(trim_seq(parts[j]))->0,
        ) by {
            if j < parts.len() - 1 {
                assert(init[j] == parts[j]);
                assert(action_status_from_name(trim_seq(init[j])) is Some);
                let st = action_status_from_name(trim_seq(parts[j]))->0;
                assert(rest.contains(st));
                let k = choose|k: int| 0 <= k < rest.len() && rest[k] == st;
                assert(r[k] == rest[k]);
            } else {
                assert(parts[j] == parts.last());
                assert(r[r.len() - 1] == action_status_from_name(trim_seq(parts.last()))->0);
            }
        }
    }
}

/// Reads a comma-separated list of statuses, skipping unknown names; `None`
/// when absent, empty, or when no name is known.
pub fn parse_statuses(status: Option<&str>) -> (r: Option<Vec<ActionStatus>>)
    ensures
        match status {
            Some(s) if s@.len() > 0 && known_statuses(split_char(s@, ',')).len() > 0 => r matches Some(v)
                && v@ == known_statuses(split_char(s@, ',')),
            _ => r is None,
        },
{
    let s = match status {
        Some(s) => s,
        None => {
            return None;
        },
    };
    let v = chars_of(s);
    if v.len() == 0 {
        return None;
    }
    let pieces = split_char_vec(&v, ',');
    let ghost pv = pieces@.map_values(|p: Vec<char>| p@);
    let mut out: Vec<ActionStatus> = Vec::new();
    let mut i: usize = 0;
    while i < pieces.len()
        invariant
            i <= pieces.len(),
            pv == pieces@.map_values(|p: Vec<char>| p@),
            out@ == known_statuses(pv.take(i as int)),
        decreases pieces.len() - i,
    {
        let t = trim_vec(&pieces[i]);
        let name = string_from_chars(&t);
        assert(pv.take(i + 1).drop_last() =~= pv.take(i as int));
        match ActionStatus::from_str(name.as_str()) {
            Some(st) => out.push(st),
            None => {},
        }
        i = i + 1;
    }
    assert(pv.take(pieces.len() as int) =~= pv);
    if out.len() == 0 {
        None
    } else {
        Some(out)
    }
}

/// Items per page when none is asked for.
pub const DEFAULT_PAGE_LIMIT: i64 = 20;

/// Most items a page may hold.
pub const MAX_PAGE_LIMIT: i64 = 100;

/// The page size and offset used for a listing: the size defaults to 20 and is
/// clamped to 1..=100; the offset defaults to 0 and is never negative.
pub fn page_bounds(limit: Option<i64>, offset: Option<i64>) -> (r: (i64, i64))
    ensures
        1 <= r.0 <= MAX_PAGE_LIMIT,
        r.0 == match limit {
            Some(l) => if l < 1 {
                1
            } else if l > MAX_PAGE_LIMIT {
                MAX_PAGE_LIMIT
            } else {
                l
            },
            None => DEFAULT_PAGE_LIMIT,
        },
        r.1 == match offset {
            Some(o) => if o < 0 {
                0
            } else {
                o
            },
            None => 0,
        },
{
    let l = match limit {
        Some(l) => l,
        None => DEFAULT_PAGE_LIMIT,
    };
    let l = if l < 1 {
        1
    } else if l > MAX_PAGE_LIMIT {
        MAX_PAGE_LIMIT
    } else {
        l
    };
    let o = match offset {
        Some(o) => if o < 0 {
            0
        } else {
            o
        },
        None => 0,
    };
    (l, o)
}

// ---------------------------------------------------------------------------
// Undoing an action
// ---------------------------------------------------------------------------

/// The `inverse_action` entry of an action's undo hint.
#[derive(Debug, Clone, PartialEq, Eq)]
pub enum InverseAction {
    /// The hint has no such entry.
    Absent,
    /// The entry is not a string.
    NotText,
    /// The entry is this string.
    Text(String),
}

/// What the undo protocol reads of the action to undo.
#[derive(Debug)]
pub struct UndoCandidate {
    pub status: ActionStatus,
    pub has_been_undone: bool,
    pub action_type: String,
    pub account_id: String,
    pub message_id: String,
    pub inverse_action: InverseAction,
    /// The hint's `inverse_parameters` entry, when present.
    pub inverse_parameters: Option<serde_json::Value>,
}

/// The action that undoes another: created queued, from no decision, with no
/// error and no undo hint of its own.
#[derive(Debug)]
pub struct UndoActionPlan {
    pub account_id: String,
    pub message_id: String,
    pub decision_id: Option<String>,
    pub action_type: String,
    pub parameters_json: serde_json::Value,
    pub status: ActionStatus,
    pub error_message: Option<String>,
}

/// Answer to a queued undo.
#[derive(Debug, Clone, PartialEq, Eq)]
pub struct UndoActionResponse {
    pub undo_action_id: String,
    pub status: String,
    pub message: String,
}

/// What the store reported for the last requested operation.
#[derive(Debug)]
pub enum UndoEvent {
    Fetched(UndoCandidate),
    NotFound,
    FetchFailed(String),
    UndoCreated { undo_action_id: String },
    CreateFailed(String),
    Linked,
    LinkFailed(String),
    /// The compensating cancellation has been attempted (its outcome is not used).
    CancelAttempted,
    Enqueued,
    EnqueueFailed(String),
}

/// What to do next.
#[derive(Debug)]
pub enum UndoStep {
    FetchAction { action_id: String },
    CreateUndoAction(UndoActionPlan),
    /// Record that `effect_action_id` is the undo of `cause_action_id`.
    LinkUndo { cause_action_id: String, effect_action_id: String },
    /// Mark the undo action canceled with `reason`, so it never runs.
    CancelUndo { undo_action_id: String, reason: String },
    EnqueueUndoJob { account_id: String, action_id: String },
    Reply(Result<UndoActionResponse, Rejection>),
}

/// Where an undo stands.
#[derive(Debug, Clone, PartialEq, Eq)]
pub enum UndoPhase {
    Fetching,
    Creating { account_id: String, action_type: String, inverse: String },
    Linking { undo_action_id: String, account_id: String, action_type: String, inverse: String },
    Canceling { link_error: String },
    Enqueuing { undo_action_id: String, action_type: String, inverse: String },
    Finished,
}

/// The undo of action `action_id` in progress.
#[derive(Debug)]
pub struct UndoFlow {
    action_id: String,
    phase: UndoPhase,
}

/// `prefix` followed by `detail`, as a 500 answer.
pub open spec fn replies_internal_undo(step: UndoStep, message: Seq<char>) -> bool {
    match step {
        UndoStep::Reply(r) => rejected(r, STATUS_INTERNAL_ERROR, "internal_error"@, message),
        _ => false,
    }
}

/// The step is a 400 answer with the given message.
pub open spec fn replies_bad_request_undo(step: UndoStep, message: Seq<char>) -> bool {
    match step {
        UndoStep::Reply(r) => rejected(r, STATUS_BAD_REQUEST, "bad_request"@, message),
        _ => false,
    }
}

/// Why a fetched action cannot be undone, if it cannot.
pub open spec fn undo_refusal(c: UndoCandidate) -> Option<Seq<char>> {
    if c.status != ActionStatus::Completed {
        Some("Cannot undo action with status: "@ + action_status_debug(c.status))
    } else if c.has_been_undone {
        Some("Action has already been undone"@)
    } else {
        match c.inverse_action {
            InverseAction::Absent => Some("Action does not support undo"@),
            InverseAction::NotText => Some("Action does not support undo (invalid inverse_action)"@),
            InverseAction::Text(t) => if is_blank(t@) {
                Some("Action does not support undo (invalid inverse_action)"@)
            } else {
                None
            },
        }
    }
}

/// The message of a queued undo.
pub open spec fn undo_queued_message(action_type: Seq<char>, inverse: Seq<char>) -> Seq<char> {
    "Undo action queued: "@ + action_type + " -> "@ + inverse
}

/// One move of the undo protocol.
pub open spec fn undo_transition(action_id: Seq<char>, phase: UndoPhase, event: UndoEvent, next: UndoPhase, step: UndoStep) -> bool {
    match phase {
        UndoPhase::Fetching => match event {
            UndoEvent::Fetched(c) => match undo_refusal(c) {
                Some(msg) => next == UndoPhase::Finished && replies_bad_request_undo(step, msg),
                None => {
                    let inverse = c.inverse_action->Text_0;
                    &&& next == (UndoPhase::Creating {
                        account_id: c.account_id,
                        action_type: c.action_type,
                        inverse,
                    })
                    &&& step matches UndoStep::CreateUndoAction(plan)
                    &&& plan.account_id == c.account_id
                    &&& plan.message_id == c.message_id
                    &&& plan.action_type == inverse
                    &&& plan.decision_id is None
                    &&& plan.status == ActionStatus::Queued
                    &&& plan.error_message is None
                    &&& (c.inverse_parameters matches Some(p) ==> plan.parameters_json == p)
                    &&& (c.inverse_parameters is None ==> is_empty_json_object(plan.parameters_json))
                },
            },
            UndoEvent::NotFound => next == UndoPhase::Finished && (step matches UndoStep::Reply(r) && rejected(
                r,
                STATUS_NOT_FOUND,
                "not_found"@,
                "Action not found: "@ + action_id,
            )),
            UndoEvent::FetchFailed(e) => next == UndoPhase::Finished && replies_internal_undo(
                step,
                "Failed to get action: "@ + e@,
            ),
            _ => next == UndoPhase::Finished && replies_internal_undo(step, "Failed to get action: "@),
        },
        UndoPhase::Creating { account_id, action_type, inverse } => match event {
            UndoEvent::UndoCreated { undo_action_id } => next == (UndoPhase::Linking {
                undo_action_id,
                account_id,
                action_type,
                inverse,
            }) && (step matches UndoStep::LinkUndo { cause_action_id, effect_action_id }
                && cause_action_id@ == action_id && effect_action_id == undo_action_id),
            UndoEvent::CreateFailed(e) => next == UndoPhase::Finished && replies_internal_undo(
                step,
                "Failed to create undo action: "@ + e@,
            ),
            _ => next == UndoPhase::Finished && replies_internal_undo(step, "Failed to create undo action: "@),
        },
        UndoPhase::Linking { undo_action_id, account_id, action_type, inverse } => match event {
            UndoEvent::Linked => next == (UndoPhase::Enqueuing { undo_action_id, action_type, inverse }) && (
            step matches UndoStep::EnqueueUndoJob { account_id: acc, action_id: queued }
                && acc == account_id && queued == undo_action_id),
            UndoEvent::LinkFailed(e) => next == (UndoPhase::Canceling { link_error: e }) && (
            step matches UndoStep::CancelUndo { undo_action_id: u, reason } && u == undo_action_id
                && reason@ == "Failed to create undo link"@),
            _ => (next matches UndoPhase::Canceling { link_error } && link_error@ == Seq::<char>::empty())
                && (step matches UndoStep::CancelUndo { undo_action_id: u, reason } && u == undo_action_id
                && reason@ == "Failed to create undo link"@),
        },
        UndoPhase::Canceling { link_error } => next == UndoPhase::Finished && replies_internal_undo(
            step,
            "Failed to create undo link: "@ + link_error@,
        ),
        UndoPhase::Enqueuing { undo_action_id, action_type, inverse } => match event {
            UndoEvent::Enqueued => next == UndoPhase::Finished && (step matches UndoStep::Reply(Ok(resp))
                && resp.undo_action_id == undo_action_id && resp.status@ == "queued"@ && resp.message@
                == undo_queued_message(action_type@, inverse@)),
            UndoEvent::EnqueueFailed(e) => next == UndoPhase::Finished && replies_internal_undo(
                step,
                "Failed to enqueue undo job: "@ + e@,
            ),
            _ => next == UndoPhase::Finished && replies_internal_undo(step, "Failed to enqueue undo job: "@),
        },
        UndoPhase::Finished => false,
    }
}

/// Only a completed action that has not been undone and whose undo hint names
/// a non-blank inverse action can be undone: any other fetched action is
/// answered at once with a 400 refusal, and nothing is created.
pub proof fn lemma_undo_refuses_ineligible(
    action_id: Seq<char>,
    c: UndoCandidate,
    next: UndoPhase,
    step: UndoStep,
)
    requires
        c.status != ActionStatus::Completed || c.has_been_undone || !(c.inverse_action matches InverseAction::Text(t)
            && !is_blank(t@)),
        undo_transition(action_id, UndoPhase::Fetching, UndoEvent::Fetched(c), next, step),
    ensures
        next == UndoPhase::Finished,
        step matches UndoStep::Reply(r) && r matches Err(e) && e.status == STATUS_BAD_REQUEST,
{
}

/// A completed action that has not been undone and whose undo hint names a
/// non-blank inverse action is undone by creating exactly that inverse
/// action: on the same account and message, queued, from no decision, with
/// the hint's inverse parameters when it has them and the empty JSON object
/// only when it has none.
pub proof fn lemma_undo_plan_follows_hint(
    action_id: Seq<char>,
    c: UndoCandidate,
    inverse: String,
    next: UndoPhase,
    step: UndoStep,
)
    requires
        c.status == ActionStatus::Completed,
        !c.has_been_undone,
        c.inverse_action == InverseAction::Text(inverse),
        !is_blank(inverse@),
        undo_transition(action_id, UndoPhase::Fetching, UndoEvent::Fetched(c), next, step),
    ensures
        step matches UndoStep::CreateUndoAction(plan) && {
            &&& plan.action_type == inverse
            &&& plan.account_id == c.account_id
            &&& plan.message_id == c.message_id
            &&& plan.status == ActionStatus::Queued
            &&& plan.decision_id is None
            &&& (c.inverse_parameters matches Some(p) ==> plan.parameters_json == p)
            &&& (c.inverse_parameters is None ==> is_empty_json_object(plan.parameters_json))
        },
{
}

fn internal_undo_reply(prefix: &str, detail: &str) -> (r: UndoStep)
    ensures
        replies_internal_undo(r, prefix@ + detail@),
{
    let mut v = chars_of(prefix);
    push_str(&mut v, detail);
    UndoStep::Reply(Err(Rejection::internal(string_from_chars(&v))))
}

fn bad_request_undo_reply(message: String) -> (r: UndoStep)
    ensures
        replies_bad_request_undo(r, message@),
{
    UndoStep::Reply(Err(Rejection { status: STATUS_BAD_REQUEST, error: crate::api::error::ApiError::bad_request(message) }))
}

/// Decides whether a fetched action can be undone, and why not.
fn check_undo(c: &UndoCandidate) -> (r: Option<String>)
    ensures
        match r {
            Some(m) => undo_refusal(*c) == Some(m@),
            None => undo_refusal(*c) is None,
        },
{
    match c.status {
        ActionStatus::Completed => {},
        _ => {
            let mut v = chars_of("Cannot undo action with status: ");
            push_str(&mut v, c.status.debug_name());
            return Some(string_from_chars(&v));
        },
    }
    if c.has_been_undone {
        return Some(owned("Action has already been undone"));
    }
    match &c.inverse_action {
        InverseAction::Absent => Some(owned("Action does not support undo")),
        InverseAction::NotText => Some(owned("Action does not support undo (invalid inverse_action)")),
        InverseAction::Text(t) => {
            if is_blank_str(t.as_str()) {
                Some(owned("Action does not support undo (invalid inverse_action)"))
            } else {
                None
            }
        },
    }
}

impl UndoFlow {
    /// The action being undone.
    pub closed spec fn action_id(&self) -> Seq<char> {
        self.action_id@
    }

    /// The current phase.
    pub closed spec fn phase(&self) -> UndoPhase {
        self.phase
    }

    /// Starts undoing `action_id`: the first step fetches it.
    pub fn start(action_id: String) -> (r: (Self, UndoStep))
        ensures
            r.0.action_id() == action_id@,
            r.0.phase() == UndoPhase::Fetching,
            r.1 matches UndoStep::FetchAction { action_id: a } && a@ == action_id@,
    {
        let step = UndoStep::FetchAction { action_id: action_id.clone() };
        (UndoFlow { action_id, phase: UndoPhase::Fetching }, step)
    }

    /// Takes the outcome of the last step and gives the next one.
    pub fn advance(&mut self, event: UndoEvent) -> (step: UndoStep)
        requires
            old(self).phase() != UndoPhase::Finished,
        ensures
            final(self).action_id() == old(self).action_id(),
            undo_transition(old(self).action_id(), old(self).phase(), event, final(self).phase(), step),
    {
        proof {
            reveal_strlit("");
        }
        let mut phase = UndoPhase::Finished;
        std::mem::swap(&mut phase, &mut self.phase);
        let (next, step) = match phase {
            UndoPhase::Fetching => match event {
                UndoEvent::Fetched(c) => match check_undo(&c) {
                    Some(msg) => (UndoPhase::Finished, bad_request_undo_reply(msg)),
                    None => {
                        let inverse = match &c.inverse_action {
                            InverseAction::Text(t) => t.clone(),
                            _ => String::new(),
                        };
                        let parameters_json = match c.inverse_parameters {
                            Some(p) => p,
                            None => empty_json_object(),
                        };
                        let plan = UndoActionPlan {
                            account_id: c.account_id.clone(),
                            message_id: c.message_id,
                            decision_id: None,
                            action_type: inverse.clone(),
                            parameters_json,
                            status: ActionStatus::Queued,
                            error_message: None,
                        };
                        (
                            UndoPhase::Creating { account_id: c.account_id, action_type: c.action_type, inverse },
                            UndoStep::CreateUndoAction(plan),
                        )
                    },
                },
                UndoEvent::NotFound => {
                    let mut v = chars_of("Action not found: ");
                    push_str(&mut v, self.action_id.as_str());
                    (UndoPhase::Finished, UndoStep::Reply(Err(Rejection::not_found(string_from_chars(&v)))))
                },
                UndoEvent::FetchFailed(e) => (UndoPhase::Finished, internal_undo_reply("Failed to get action: ", e.as_str())),
                _ => (UndoPhase::Finished, internal_undo_reply("Failed to get action: ", "")),
            },
            UndoPhase::Creating { account_id, action_type, inverse } => match event {
                UndoEvent::UndoCreated { undo_action_id } => {
                    let step = UndoStep::LinkUndo {
                        cause_action_id: self.action_id.clone(),
                        effect_action_id: undo_action_id.clone(),
                    };
                    (UndoPhase::Linking { undo_action_id, account_id, action_type, inverse }, step)
                },
                UndoEvent::CreateFailed(e) => (
                    UndoPhase::Finished,
                    internal_undo_reply("Failed to create undo action: ", e.as_str()),
                ),
                _ => (UndoPhase::Finished, internal_undo_reply("Failed to create undo action: ", "")),
            },
            UndoPhase::Linking { undo_action_id, account_id, action_type, inverse } => match event {
                UndoEvent::Linked => {
                    let step = UndoStep::EnqueueUndoJob { account_id, action_id: undo_action_id.clone() };
                    (UndoPhase::Enqueuing { undo_action_id, action_type, inverse }, step)
                },
                UndoEvent::LinkFailed(e) => (
                    UndoPhase::Canceling { link_error: e },
                    UndoStep::CancelUndo { undo_action_id, reason: owned("Failed to create undo link") },
                ),
                _ => (
                    UndoPhase::Canceling { link_error: String::new() },
                    UndoStep::CancelUndo { undo_action_id, reason: owned("Failed to create undo link") },
                ),
            },
            UndoPhase::Canceling { link_error } => (
                UndoPhase::Finished,
                internal_undo_reply("Failed to create undo link: ", link_error.as_str()),
            ),
            UndoPhase::Enqueuing { undo_action_id, action_type, inverse } => match event {
                UndoEvent::Enqueued => {
                    let mut v = chars_of("Undo action queued: ");
                    push_str(&mut v, action_type.as_str());
                    push_str(&mut v, " -> ");
                    push_str(&mut v, inverse.as_str());
                    let resp = UndoActionResponse {
                        undo_action_id,
                        status: owned("queued"),
                        message: string_from_chars(&v),
                    };
                    (UndoPhase::Finished, UndoStep::Reply(Ok(resp)))
                },
                UndoEvent::EnqueueFailed(e) => (
                    UndoPhase::Finished,
                    internal_undo_reply("Failed to enqueue undo job: ", e.as_str()),
                ),
                _ => (UndoPhase::Finished, internal_undo_reply("Failed to enqueue undo job: ", "")),
            },
            UndoPhase::Finished => (UndoPhase::Finished, internal_undo_reply("Failed to get action: ", "")),
        };
        self.phase = next;
        step
    }
}

/// The undo protocol never leaves a runnable undo behind a failed link and
/// never writes for an action it refuses: the job is enqueued only once the
/// undo is linked to its cause; a failed link is answered only after the undo
/// action has been canceled; a refused or missing action is answered before
/// anything is written.
pub proof fn lemma_undo_is_compensated(
    action_id: Seq<char>,
    phase: UndoPhase,
    event: UndoEvent,
    next: UndoPhase,
    step: UndoStep,
)
    requires
        undo_transition(action_id, phase, event, next, step),
    ensures
        step is EnqueueUndoJob ==> (phase is Linking) && (event is Linked),
        (phase is Linking) && !(event is Linked) ==> step is CancelUndo && next is Canceling,
        next is Canceling ==> step is CancelUndo,
        phase is Canceling ==> step is Reply && next == UndoPhase::Finished,
        phase is Fetching ==> step is Reply || step is CreateUndoAction,
        phase is Fetching && (event matches UndoEvent::Fetched(c) && undo_refusal(c) is Some) ==> step is Reply,
        step matches UndoStep::Reply(r) && r is Ok ==> (phase is Enqueuing) && (event is Enqueued),
{
}

} // verus!
