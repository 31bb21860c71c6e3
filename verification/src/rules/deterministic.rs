//! Selecting the deterministic rule that applies to a message.
//!
//! Loading rules is I/O; what is decided here is which scopes to load, the
//! order in which loaded rules are tried, and which rule wins.

use vstd::prelude::*;
use vstd::seq_lib::to_multiset_insert;
use vstd::seq_lib::to_multiset_remove;

use crate::json::clone_json;
use crate::messages::Message;
use crate::rules::conditions::{
    condition_outcome, domain_of, evaluate, extract_domain, outcome_of, Condition, ConditionError, EvaluationContext, Outcome,
};
use crate::rules::types::{DeterministicRule, RuleScope, SafeMode};
use crate::text::{chars_of, lowercase, owned, to_lowercase};

verus! {

// ---------------------------------------------------------------------------
// Scope queries
// ---------------------------------------------------------------------------

/// One `(scope, scope_ref)` pair whose enabled rules are loaded.
#[derive(Debug)]
pub struct ScopeQuery {
    pub scope: RuleScope,
    pub scope_ref: Option<String>,
}

/// The queries that gather every rule that may apply to a message from
/// `sender_email` in `account_id`: global rules, the account's rules, the
/// rules of the sender's (lower-cased) domain when it has one, and the
/// sender's own rules.
pub open spec fn scope_queries_spec(account_id: Seq<char>, sender_email: Option<Seq<char>>) -> Seq<(RuleScope, Option<Seq<char>>)> {
    let base = seq![(RuleScope::Global, None), (RuleScope::Account, Some(account_id))];
    match sender_email {
        None => base,
        Some(email) => match domain_of(email) {
            Some(d) => base.push((RuleScope::Domain, Some(lowercase(d)))).push((RuleScope::Sender, Some(email))),
            None => base.push((RuleScope::Sender, Some(email))),
        },
    }
}

/// The loader always asks for the global rules first and the account's rules
/// second; with a sender it asks last for that sender's own rules and, when
/// the address has a domain, for the lower-cased domain's rules just before;
/// without a sender it asks for nothing else.
pub proof fn lemma_scope_queries_cover_message(account_id: Seq<char>, sender_email: Option<Seq<char>>)
    ensures
        scope_queries_spec(account_id, sender_email)[0] == (RuleScope::Global, None::<Seq<char>>),
        scope_queries_spec(account_id, sender_email)[1] == (RuleScope::Account, Some(account_id)),
        sender_email is None ==> scope_queries_spec(account_id, sender_email).len() == 2,
        sender_email matches Some(e) ==> scope_queries_spec(account_id, sender_email).last() == (
            RuleScope::Sender,
            Some(e),
        ),
        sender_email matches Some(e) ==> (domain_of(e) matches Some(d) ==> scope_queries_spec(
            account_id,
            sender_email,
        ).len() == 4 && scope_queries_spec(account_id, sender_email)[2] == (RuleScope::Domain, Some(lowercase(d)))),
        sender_email matches Some(e) ==> (domain_of(e) is None ==> scope_queries_spec(account_id, sender_email).len()
            == 3),
{
}

/// The model of a query list.
pub open spec fn queries_view(qs: Seq<ScopeQuery>) -> Seq<(RuleScope, Option<Seq<char>>)> {
    qs.map_values(|q: ScopeQuery| (q.scope, match q.scope_ref { Some(r) => Some(r@), None => None }))
}

/// Lists, in loading order, the scope queries for a message.
pub fn applicable_scope_queries(account_id: &str, sender_email: Option<&str>) -> (r: Vec<ScopeQuery>)
    ensures
        queries_view(r@) == scope_queries_spec(account_id@, match sender_email { Some(e) => Some(e@), None => None }),
{
    let mut r: Vec<ScopeQuery> = Vec::new();
    r.push(ScopeQuery { scope: RuleScope::Global, scope_ref: None });
    r.push(ScopeQuery { scope: RuleScope::Account, scope_ref: Some(owned(account_id)) });
    match sender_email {
        Some(email) => {
            match extract_domain(email) {
                Some(domain) => {
                    let lowered = to_lowercase(domain.as_str());
                    r.push(ScopeQuery { scope: RuleScope::Domain, scope_ref: Some(lowered) });
                },
                None => {},
            }
            r.push(ScopeQuery { scope: RuleScope::Sender, scope_ref: Some(owned(email)) });
        },
        None => {},
    }
    assert(queries_view(r@) =~= scope_queries_spec(account_id@, match sender_email { Some(e) => Some(e@), None => None }));
    r
}

/// The model of one query.
pub open spec fn query_view(q: ScopeQuery) -> (RuleScope, Option<Seq<char>>) {
    (q.scope, match q.scope_ref {
        Some(r) => Some(r@),
        None => None,
    })
}

/// What the loader asks for next.
#[derive(Debug)]
pub enum LoaderStep {
    /// Load the enabled rules of this scope.
    Query(ScopeQuery),
    /// All rules gathered, in trying order.
    Done(Vec<DeterministicRule>),
}

/// Gathers the rules that may apply to a message, one scope query at a time,
/// and hands them back in trying order.
#[derive(Debug)]
pub struct RuleLoader {
    queries: Vec<ScopeQuery>,
    loaded: Vec<DeterministicRule>,
    finished: bool,
}

impl RuleLoader {
    /// The queries still to run, in order.
    pub closed spec fn pending(&self) -> Seq<(RuleScope, Option<Seq<char>>)> {
        queries_view(self.queries@)
    }

    /// The rules gathered so far.
    pub closed spec fn loaded(&self) -> Seq<DeterministicRule> {
        self.loaded@
    }

    /// The sorted rules have been handed back.
    pub closed spec fn finished(&self) -> bool {
        self.finished
    }

    /// Starts gathering for a message in `account_id` from `sender_email`: the
    /// first step runs the first scope query.
    pub fn new(account_id: &str, sender_email: Option<&str>) -> (r: (Self, LoaderStep))
        ensures
            ({
                let all = scope_queries_spec(account_id@, match sender_email { Some(e) => Some(e@), None => None });
                &&& r.1 matches LoaderStep::Query(q) && query_view(q) == all[0]
                &&& r.0.pending() == all.drop_first()
                &&& r.0.loaded() == Seq::<DeterministicRule>::empty()
                &&& !r.0.finished()
            }),
    {
        let mut queries = applicable_scope_queries(account_id, sender_email);
        let ghost all = queries_view(queries@);
        let first = queries.remove(0);
        assert(queries_view(queries@) =~= all.drop_first());
        (RuleLoader { queries, loaded: Vec::new(), finished: false }, LoaderStep::Query(first))
    }

    /// Takes the rules the last query returned: runs the next query, or, after
    /// the last, hands back everything gathered, sorted into trying order.
    pub fn add_results(&mut self, rules: Vec<DeterministicRule>) -> (step: LoaderStep)
        requires
            !old(self).finished(),
        ensures
            old(self).pending().len() > 0 ==> {
                &&& step matches LoaderStep::Query(q) && query_view(q) == old(self).pending()[0]
                &&& final(self).pending() == old(self).pending().drop_first()
                &&& final(self).loaded() == old(self).loaded() + rules@
                &&& !final(self).finished()
            },
            old(self).pending().len() == 0 ==> {
                &&& step matches LoaderStep::Done(v) && rules_sorted(v@) && v@.to_multiset() == (old(
                    self,
                ).loaded() + rules@).to_multiset()
                &&& final(self).finished()
            },
    {
        let mut rules = rules;
        let ghost before = self.loaded@;
        let ghost added = rules@;
        self.loaded.append(&mut rules);
        assert(self.loaded@ =~= before + added);
        if self.queries.len() > 0 {
            let ghost pend = queries_view(self.queries@);
            let next = self.queries.remove(0);
            assert(queries_view(self.queries@) =~= pend.drop_first());
            LoaderStep::Query(next)
        } else {
            let mut all: Vec<DeterministicRule> = Vec::new();
            std::mem::swap(&mut all, &mut self.loaded);
            self.finished = true;
            LoaderStep::Done(sort_rules(all))
        }
    }
}

// ---------------------------------------------------------------------------
// Rule order
// ---------------------------------------------------------------------------

/// Lexicographic comparison of character sequences by code point, as `String`'s
/// `Ord` compares them: negative, zero or positive.
pub open spec fn lex_order(a: Seq<char>, b: Seq<char>) -> int
    decreases a.len(),
{
    if a.len() == 0 && b.len() == 0 {
        0
    } else if a.len() == 0 {
        -1
    } else if b.len() == 0 {
        1
    } else if a[0] < b[0] {
        -1
    } else if a[0] > b[0] {
        1
    } else {
        lex_order(a.drop_first(), b.drop_first())
    }
}

/// Comparison is antisymmetric and only equal sequences compare equal.
pub proof fn lemma_lex_order_antisym(a: Seq<char>, b: Seq<char>)
    ensures
        lex_order(a, b) == -lex_order(b, a),
        -1 <= lex_order(a, b) <= 1,
        lex_order(a, b) == 0 <==> a == b,
    decreases a.len(),
{
    if a.len() == 0 && b.len() == 0 {
        assert(a =~= b);
    } else if a.len() > 0 && b.len() > 0 && a[0] == b[0] {
        lemma_lex_order_antisym(a.drop_first(), b.drop_first());
        if a.drop_first() == b.drop_first() {
            assert(a =~= seq![a[0]] + a.drop_first());
            assert(b =~= seq![b[0]] + b.drop_first());
        }
        if a == b {
            assert(a.drop_first() == b.drop_first());
        }
    } else if a.len() > 0 && b.len() > 0 {
        assert(a != b);
    } else {
        assert(a.len() != b.len());
    }
}

/// Comparison is transitive.
pub proof fn lemma_lex_order_trans(a: Seq<char>, b: Seq<char>, c: Seq<char>)
    requires
        lex_order(a, b) <= 0,
        lex_order(b, c) <= 0,
    ensures
        lex_order(a, c) <= 0,
    decreases a.len(),
{
    if a.len() > 0 && b.len() > 0 && c.len() > 0 && a[0] == b[0] && b[0] == c[0] {
        lemma_lex_order_trans(a.drop_first(), b.drop_first(), c.drop_first());
    }
}

/// `a` is tried no later than `b`: smaller priority first, then earlier
/// creation, then smaller id.
pub open spec fn rule_le(a: DeterministicRule, b: DeterministicRule) -> bool {
    a.priority < b.priority || (a.priority == b.priority && (a.created_at < b.created_at || (
    a.created_at == b.created_at && lex_order(a.id@, b.id@) <= 0)))
}

/// A rule list in trying order.
pub open spec fn rules_sorted(rs: Seq<DeterministicRule>) -> bool {
    forall|i: int, j: int| 0 <= i < j < rs.len() ==> rule_le(#[trigger] rs[i], #[trigger] rs[j])
}

/// Rules in trying order come by ascending priority; among equal priorities
/// the older rule comes first, and among rules created together the smaller
/// id (compared character by character) comes first.
pub proof fn lemma_sorted_rules_by_priority(rs: Seq<DeterministicRule>, i: int, j: int)
    requires
        rules_sorted(rs),
        0 <= i < j < rs.len(),
    ensures
        rs[i].priority <= rs[j].priority,
        rs[i].priority == rs[j].priority ==> rs[i].created_at <= rs[j].created_at,
        rs[i].priority == rs[j].priority && rs[i].created_at == rs[j].created_at ==> lex_order(rs[i].id@, rs[j].id@)
            <= 0,
{
    assert(rule_le(rs[i], rs[j]));
}

/// The rule order is total and transitive.
pub proof fn lemma_rule_le_total_trans(a: DeterministicRule, b: DeterministicRule, c: DeterministicRule)
    ensures
        rule_le(a, b) || rule_le(b, a),
        rule_le(a, b) && rule_le(b, c) ==> rule_le(a, c),
{
    lemma_lex_order_antisym(a.id@, b.id@);
    lemma_lex_order_antisym(b.id@, c.id@);
    if rule_le(a, b) && rule_le(b, c) && a.priority == c.priority && a.created_at == c.created_at {
        lemma_lex_order_trans(a.id@, b.id@, c.id@);
    }
}

/// Compares two character vectors lexicographically.
pub fn compare_chars(a: &Vec<char>, b: &Vec<char>) -> (r: i8)
    ensures
        r as int == lex_order(a@, b@),
{
    let mut i: usize = 0;
    proof {
        assert(a@.skip(0) =~= a@);
        assert(b@.skip(0) =~= b@);
    }
    while i < a.len() && i < b.len()
        invariant
            i <= a.len(),
            i <= b.len(),
            lex_order(a@, b@) == lex_order(a@.skip(i as int), b@.skip(i as int)),
        decreases a.len() - i,
    {
        let x = a[i];
        let y = b[i];
        proof {
            assert(a@.skip(i as int)[0] == x);
            assert(b@.skip(i as int)[0] == y);
            assert(a@.skip(i as int).drop_first() =~= a@.skip(i + 1));
            assert(b@.skip(i as int).drop_first() =~= b@.skip(i + 1));
        }
        if x < y {
            return -1;
        }
        if x > y {
            return 1;
        }
        i = i + 1;
    }
    if i == a.len() && i == b.len() {
        0
    } else if i == a.len() {
        -1
    } else {
        1
    }
}

/// Whether `a` is tried strictly before `b`.
fn rule_lt(a: &DeterministicRule, b: &DeterministicRule) -> (r: bool)
    ensures
        r == !rule_le(*b, *a),
{
    if a.priority != b.priority {
        return a.priority < b.priority;
    }
    if a.created_at != b.created_at {
        return a.created_at < b.created_at;
    }
    let ai = chars_of(a.id.as_str());
    let bi = chars_of(b.id.as_str());
    let c = compare_chars(&ai, &bi);
    proof {
        lemma_lex_order_antisym(a.id@, b.id@);
    }
    c < 0
}

/// Puts loaded rules in trying order: by priority, then creation time, then
/// id. The result is sorted and holds exactly the given rules.
pub fn sort_rules(rules: Vec<DeterministicRule>) -> (r: Vec<DeterministicRule>)
    ensures
        rules_sorted(r@),
        r@.to_multiset() == rules@.to_multiset(),
{
    let mut input = rules;
    let ghost given = input@;
    let mut out: Vec<DeterministicRule> = Vec::new();
    proof {
        broadcast use vstd::seq_lib::group_to_multiset_ensures;
        broadcast use vstd::multiset::group_multiset_axioms;
        assert(out@.to_multiset() =~= vstd::multiset::Multiset::empty());
        assert(out@.to_multiset().add(input@.to_multiset()) =~= given.to_multiset());
    }
    while input.len() > 0
        invariant
            rules_sorted(out@),
            out@.to_multiset().add(input@.to_multiset()) == given.to_multiset(),
        decreases input.len(),
    {
        let ghost prev = input@;
        let x = input.remove(0);
        proof {
            to_multiset_remove(prev, 0);
            assert(prev.to_multiset().count(x) > 0) by {
                broadcast use vstd::seq_lib::group_to_multiset_ensures;
                assert(prev[0] == x);
            }
        }
        let mut pos: usize = 0;
        while pos < out.len() && !rule_lt(&x, &out[pos])
            invariant
                pos <= out.len(),
                forall|k: int| 0 <= k < pos ==> rule_le(#[trigger] out@[k], x),
            decreases out.len() - pos,
        {
            proof {
                lemma_rule_le_total_trans(out@[pos as int], x, x);
            }
            pos = pos + 1;
        }
        let ghost before = out@;
        out.insert(pos, x);
        proof {
            to_multiset_insert(before, pos as int, x);
            broadcast use vstd::multiset::group_multiset_axioms;
            assert(out@.to_multiset().add(input@.to_multiset()) =~= given.to_multiset());
            assert forall|i: int, j: int| 0 <= i < j < out@.len() implies rule_le(#[trigger] out@[i], #[trigger] out@[j]) by {
                if j == pos {
                    assert(out@[i] == before[i]);
                } else if i == pos {
                    assert(out@[j] == before[j - 1]);
                    if pos < before.len() {
                        assert(!rule_le(before[pos as int], x));
                        lemma_rule_le_total_trans(x, before[pos as int], before[j - 1]);
                        if j - 1 > pos {
                            assert(rule_le(before[pos as int], before[j - 1]));
                        }
                    }
                } else if j < pos {
                    assert(out@[i] == before[i] && out@[j] == before[j]);
                } else if i < pos {
                    assert(out@[i] == before[i] && out@[j] == before[j - 1]);
                    lemma_rule_le_total_trans(before[i], x, before[j - 1]);
                    lemma_rule_le_total_trans(x, before[pos as int], before[j - 1]);
                    if pos < before.len() {
                        assert(rule_le(before[i], before[j - 1]));
                    }
                } else {
                    assert(out@[i] == before[i - 1] && out@[j] == before[j - 1]);
                }
            }
        }
    }
    proof {
        broadcast use vstd::seq_lib::group_to_multiset_ensures;
        broadcast use vstd::multiset::group_multiset_axioms;
        assert(input@.to_multiset() =~= vstd::multiset::Multiset::empty());
        assert(out@.to_multiset() =~= given.to_multiset());
    }
    out
}

// ---------------------------------------------------------------------------
// Selecting the matching rule
// ---------------------------------------------------------------------------

/// The outcome of the first matching rule.
#[derive(Debug)]
pub struct RuleMatch {
    pub rule: DeterministicRule,
    pub action_type: String,
    pub action_parameters: serde_json::Value,
    pub safe_mode: SafeMode,
}

/// What trying a list of parsed conditions yields.
pub ghost enum Selection {
    Matched(int),
    NoMatch,
    Failed(Outcome),
}

/// The outcome of one rule's parsed condition on a message; a parse failure
/// counts as that failure.
pub open spec fn parsed_outcome(p: Result<Condition, ConditionError>, m: Message) -> Outcome {
    match p {
        Ok(c) => condition_outcome(c, m),
        Err(e) => outcome_of(Err(e)),
    }
}

/// Tries rules from position `i` on: the first true condition wins, a false
/// one moves on, and the first failure stops the search.
pub open spec fn select_from(ps: Seq<Result<Condition, ConditionError>>, m: Message, i: int) -> Selection
    decreases ps.len() - i,
{
    if i < 0 || i >= ps.len() {
        Selection::NoMatch
    } else {
        match parsed_outcome(ps[i], m) {
            Outcome::Matched(true) => Selection::Matched(i),
            Outcome::Matched(false) => select_from(ps, m, i + 1),
            other => Selection::Failed(other),
        }
    }
}

/// The outcome an executable selection failure stands for.
pub open spec fn selection_error_outcome(e: ConditionError) -> Outcome {
    outcome_of(Err(e))
}

/// Tries the rules in the given order against a message, each with its parsed
/// condition (`conditions[i]` belongs to `rules[i]`), and returns the first
/// match with its action, `None` when no rule matches, or the first failure.
pub fn select_rule(
    rules: Vec<DeterministicRule>,
    conditions: Vec<Result<Condition, ConditionError>>,
    message: &Message,
    ctx: &mut EvaluationContext,
) -> (r: Result<Option<RuleMatch>, ConditionError>)
    requires
        rules@.len() == conditions@.len(),
    ensures
        select_from(conditions@, *message, 0) matches Selection::Matched(k) ==> (r matches Ok(Some(rm)) && {
            &&& rm.rule == rules@[k]
            &&& rm.action_type@ == rules@[k].action_type@
            &&& rm.action_parameters == rules@[k].action_parameters_json
            &&& rm.safe_mode == rules@[k].safe_mode
        }),
        select_from(conditions@, *message, 0) is NoMatch ==> r matches Ok(None),
        select_from(conditions@, *message, 0) matches Selection::Failed(o) ==> (r matches Err(e)
            && selection_error_outcome(e) == o),
{
    let mut rule_list = rules;
    let mut parsed = conditions;
    let ghost rs = rule_list@;
    let ghost cs = parsed@;
    let n = parsed.len();
    let mut i: usize = 0;
    while i < n
        invariant
            n == cs.len(),
            rs.len() == cs.len(),
            rule_list@ == rs,
            parsed@ == cs,
            rs == rules@,
            cs == conditions@,
            i <= n,
            select_from(cs, *message, 0) == select_from(cs, *message, i as int),
        decreases n - i,
    {
        if parsed[i].is_err() {
            let failed = parsed.remove(i);
            assert(failed == cs[i as int]);
            match failed {
                Err(e) => {
                    assert(parsed_outcome(cs[i as int], *message) == outcome_of(Err(e)));
                    assert(!(outcome_of(Err(e)) is Matched));
                    assert(select_from(cs, *message, i as int) == Selection::Failed(outcome_of(Err(e))));
                    return Err(e);
                },
                Ok(_) => {
                    return Ok(None);
                },
            }
        }
        let res = match &parsed[i] {
            Ok(c) => evaluate(c, message, ctx),
            Err(_) => Ok(false),
        };
        match res {
            Ok(true) => {
                let rule = rule_list.remove(i);
                assert(rule == rs[i as int]);
                let action_type = rule.action_type.clone();
                let action_parameters = clone_json(&rule.action_parameters_json);
                let safe_mode = rule.safe_mode;
                return Ok(Some(RuleMatch { rule, action_type, action_parameters, safe_mode }));
            },
            Ok(false) => {},
            Err(e) => return Err(e),
        }
        i = i + 1;
    }
    Ok(None)
}

/// When the rules are in trying order and every condition evaluates, the rule
/// that wins comes no later in the order than any other rule whose condition
/// holds: the most urgent matching rule wins.
pub proof fn lemma_first_match_is_most_urgent(
    rules: Seq<DeterministicRule>,
    ps: Seq<Result<Condition, ConditionError>>,
    m: Message,
    k: int,
    j: int,
)
    requires
        rules.len() == ps.len(),
        rules_sorted(rules),
        select_from(ps, m, 0) == Selection::Matched(k),
        0 <= j < ps.len(),
        parsed_outcome(ps[j], m) == Outcome::Matched(true),
    ensures
        0 <= k <= j,
        rule_le(rules[k], rules[j]),
{
    lemma_select_from_first(ps, m, 0, k, j);
    if k < j {
        assert(rule_le(rules[k], rules[j]));
    } else {
        lemma_rule_le_refl(rules[k]);
    }
}

/// A selected position is the first position at or after `i` whose
/// condition holds.
proof fn lemma_select_from_first(ps: Seq<Result<Condition, ConditionError>>, m: Message, i: int, k: int, j: int)
    requires
        0 <= i,
        select_from(ps, m, i) == Selection::Matched(k),
        i <= j < ps.len(),
        parsed_outcome(ps[j], m) == Outcome::Matched(true),
    ensures
        i <= k <= j,
    decreases ps.len() - i,
{
    if i < ps.len() && parsed_outcome(ps[i], m) == Outcome::Matched(false) {
        lemma_select_from_first(ps, m, i + 1, k, j);
    }
}

/// The rule order is reflexive.
proof fn lemma_rule_le_refl(a: DeterministicRule)
    ensures
        rule_le(a, a),
{
    lemma_lex_order_antisym(a.id@, a.id@);
}

} // verus!
