//! Condition trees of deterministic rules and their evaluation against a message.

use vstd::prelude::*;

use crate::messages::{Header, Message};
use crate::text::{
    ascii_lower, chars_of, contains_seq, contains_vec, eq_ignore_ascii_case, eq_ignore_ascii_case_spec,
    eq_ignore_ascii_case_vec, lemma_rfind_before, lowercase, owned, rfind_char, rfind_char_exec,
    starts_with_seq, str_eq, string_from_chars, subvec, to_lowercase,
};

verus! {

// ---------------------------------------------------------------------------
// Outside types and calls (regex)
// ---------------------------------------------------------------------------

/// A compiled regular expression (`regex::Regex`).
#[verifier::external_type_specification]
#[verifier::external_body]
pub struct ExRegex(regex::Regex);

/// A regular-expression compilation error (`regex::Error`).
#[verifier::external_type_specification]
#[verifier::external_body]
pub struct ExRegexError(regex::Error);

/// Whether `regex::Regex::new` accepts the pattern. It depends on the pattern alone.
pub uninterp spec fn regex_compiles(pattern: Seq<char>) -> bool;

/// Whether the regex compiled from `pattern` matches somewhere in `text`
/// (`regex::Regex::is_match`). It depends on the pattern and the text alone.
pub uninterp spec fn regex_is_match(pattern: Seq<char>, text: Seq<char>) -> bool;

/// A regular expression together with the pattern it was compiled from.
/// Values are only ever built by [`compile_regex`].
#[derive(Debug)]
pub struct CompiledRegex {
    pattern: String,
    regex: regex::Regex,
}

impl CompiledRegex {
    /// The pattern this regex was compiled from.
    pub closed spec fn source(&self) -> Seq<char> {
        self.pattern@
    }

    /// The pattern this regex was compiled from.
    pub fn pattern(&self) -> (r: &str)
        ensures
            r@ == self.source(),
    {
        self.pattern.as_str()
    }

    /// `regex::Regex::is_match` on the compiled regex. The claim that the result
    /// is `regex_is_match(pattern, text)` rests on `regex` having been compiled
    /// from `pattern`, which `compile_regex`, the only constructor, guarantees.
    #[verifier::external_body]
    pub(crate) fn is_match(&self, text: &str) -> (r: bool)
        ensures
            r == regex_is_match(self.source(), text@),
    {
        self.regex.is_match(text)
    }
}

/// `regex::Regex::new`: succeeds exactly when the pattern compiles; the result
/// keeps the pattern it was compiled from.
#[verifier::external_body]
fn compile_regex(pattern: &str) -> (r: Result<CompiledRegex, regex::Error>)
    ensures
        r is Ok <==> regex_compiles(pattern@),
        r matches Ok(c) ==> c.source() == pattern@,
{
    match regex::Regex::new(pattern) {
        Ok(regex) => Ok(CompiledRegex { pattern: pattern.to_string(), regex }),
        Err(e) => Err(e),
    }
}

// ---------------------------------------------------------------------------
// Condition trees
// ---------------------------------------------------------------------------

/// How the children of a logical node combine.
#[derive(Debug, Clone, Copy, PartialEq, Eq)]
pub enum LogicalOperator {
    And,
    Or,
    Not,
}

/// An inner node: an operator applied to child conditions.
#[derive(Debug)]
pub struct LogicalCondition {
    pub op: LogicalOperator,
    pub children: Vec<Condition>,
}

/// A test on one aspect of a message.
#[derive(Debug, Clone)]
pub enum LeafCondition {
    SenderEmail { value: String },
    SenderDomain { value: String },
    SubjectContains { value: String },
    SubjectRegex { value: String },
    HeaderMatch { header: String, pattern: String },
    LabelPresent { value: String },
}

/// A condition tree.
#[derive(Debug)]
pub enum Condition {
    Logical(LogicalCondition),
    Leaf(LeafCondition),
}

/// Why a condition could not be parsed, validated or evaluated.
#[derive(Debug)]
pub enum ConditionError {
    InvalidJson(serde_json::Error),
    InvalidRegex { pattern: String, source: regex::Error },
    InvalidNotChildCount(usize),
    EmptyTree,
}

/// The mathematical outcome of evaluating a condition.
pub ghost enum Outcome {
    Matched(bool),
    EmptyTree,
    InvalidNotChildCount(int),
    InvalidRegex(Seq<char>),
    InvalidJson,
}

/// The outcome an executable evaluation result stands for.
pub open spec fn outcome_of(r: Result<bool, ConditionError>) -> Outcome {
    match r {
        Ok(b) => Outcome::Matched(b),
        Err(ConditionError::EmptyTree) => Outcome::EmptyTree,
        Err(ConditionError::InvalidNotChildCount(n)) => Outcome::InvalidNotChildCount(n as int),
        Err(ConditionError::InvalidRegex { pattern, .. }) => Outcome::InvalidRegex(pattern@),
        Err(ConditionError::InvalidJson(_)) => Outcome::InvalidJson,
    }
}

/// The outcome a validation result stands for (`Matched(true)` when valid).
pub open spec fn validation_outcome(r: Result<(), ConditionError>) -> Outcome {
    match r {
        Ok(()) => Outcome::Matched(true),
        Err(e) => outcome_of(Err(e)),
    }
}

// ---------------------------------------------------------------------------
// Specification of addresses and leaves
// ---------------------------------------------------------------------------

/// The domain of an address: what follows its last `@`, when that is non-empty.
pub open spec fn domain_of(email: Seq<char>) -> Option<Seq<char>> {
    match rfind_char(email, '@') {
        Some(k) => if k + 1 == email.len() {
            None
        } else {
            Some(email.subrange(k + 1, email.len() as int))
        },
        None => None,
    }
}

/// A sender pattern is either `*@domain` (any sender of that domain) or an
/// address; both compare case-insensitively over ASCII.
pub open spec fn sender_email_matches(pattern: Seq<char>, email: Seq<char>) -> bool {
    if starts_with_seq(pattern, seq!['*', '@']) {
        match domain_of(email) {
            Some(d) => eq_ignore_ascii_case_spec(d, pattern.subrange(2, pattern.len() as int)),
            None => false,
        }
    } else {
        eq_ignore_ascii_case_spec(pattern, email)
    }
}

/// Some header has the given name (ASCII case-insensitively) and a value the
/// pattern matches.
pub open spec fn some_header_matches(headers: Seq<Header>, name: Seq<char>, pattern: Seq<char>) -> bool {
    exists|i: int|
        0 <= i < headers.len() && eq_ignore_ascii_case_spec(#[trigger] headers[i].name@, name)
            && regex_is_match(pattern, headers[i].value@)
}

/// The label list holds `value` exactly.
pub open spec fn has_label(labels: Seq<String>, value: Seq<char>) -> bool {
    exists|i: int| 0 <= i < labels.len() && (#[trigger] labels[i])@ == value
}

/// What a leaf condition yields on a message.
pub open spec fn leaf_outcome(leaf: LeafCondition, m: Message) -> Outcome {
    match leaf {
        LeafCondition::SenderEmail { value } => Outcome::Matched(
            match m.from_email {
                Some(f) => sender_email_matches(value@, f@),
                None => false,
            },
        ),
        LeafCondition::SenderDomain { value } => Outcome::Matched(
            match m.from_email {
                Some(f) => match domain_of(f@) {
                    Some(d) => eq_ignore_ascii_case_spec(d, value@),
                    None => false,
                },
                None => false,
            },
        ),
        LeafCondition::SubjectContains { value } => Outcome::Matched(
            match m.subject {
                Some(s) => contains_seq(lowercase(s@), lowercase(value@)),
                None => false,
            },
        ),
        LeafCondition::SubjectRegex { value } => match m.subject {
            None => Outcome::Matched(false),
            Some(s) => if regex_compiles(value@) {
                Outcome::Matched(regex_is_match(value@, s@))
            } else {
                Outcome::InvalidRegex(value@)
            },
        },
        LeafCondition::HeaderMatch { header, pattern } => if regex_compiles(pattern@) {
            Outcome::Matched(some_header_matches(m.headers@, header@, pattern@))
        } else {
            Outcome::InvalidRegex(pattern@)
        },
        LeafCondition::LabelPresent { value } => Outcome::Matched(has_label(m.labels@, value@)),
    }
}

// ---------------------------------------------------------------------------
// Specification of trees
// ---------------------------------------------------------------------------

/// What a condition tree yields on a message. Children are evaluated left to
/// right: AND stops at the first false child, OR at the first true one, and
/// the first error stops evaluation.
pub open spec fn condition_outcome(c: Condition, m: Message) -> Outcome
    decreases c,
{
    match c {
        Condition::Leaf(leaf) => leaf_outcome(leaf, m),
        Condition::Logical(lc) => match lc.op {
            LogicalOperator::And => if lc.children@.len() == 0 {
                Outcome::EmptyTree
            } else {
                all_outcome(lc.children@, m)
            },
            LogicalOperator::Or => if lc.children@.len() == 0 {
                Outcome::EmptyTree
            } else {
                any_outcome(lc.children@, m)
            },
            LogicalOperator::Not => if lc.children@.len() != 1 {
                Outcome::InvalidNotChildCount(lc.children@.len() as int)
            } else {
                match condition_outcome(lc.children@[0], m) {
                    Outcome::Matched(b) => Outcome::Matched(!b),
                    other => other,
                }
            },
        },
    }
}

/// Left-to-right conjunction of the children's outcomes.
pub open spec fn all_outcome(cs: Seq<Condition>, m: Message) -> Outcome
    decreases cs,
{
    if cs.len() == 0 {
        Outcome::Matched(true)
    } else {
        match condition_outcome(cs[0], m) {
            Outcome::Matched(true) => all_outcome(cs.subrange(1, cs.len() as int), m),
            other => other,
        }
    }
}

/// Left-to-right disjunction of the children's outcomes.
pub open spec fn any_outcome(cs: Seq<Condition>, m: Message) -> Outcome
    decreases cs,
{
    if cs.len() == 0 {
        Outcome::Matched(false)
    } else {
        match condition_outcome(cs[0], m) {
            Outcome::Matched(false) => any_outcome(cs.subrange(1, cs.len() as int), m),
            other => other,
        }
    }
}

/// Structural validity: AND/OR nodes have children, NOT nodes exactly one, and
/// every child is valid. The result names the first defect in depth-first order.
pub open spec fn validity(c: Condition) -> Outcome
    decreases c,
{
    match c {
        Condition::Leaf(_) => Outcome::Matched(true),
        Condition::Logical(lc) => match lc.op {
            LogicalOperator::And | LogicalOperator::Or => if lc.children@.len() == 0 {
                Outcome::EmptyTree
            } else {
                all_valid(lc.children@)
            },
            LogicalOperator::Not => if lc.children@.len() != 1 {
                Outcome::InvalidNotChildCount(lc.children@.len() as int)
            } else {
                validity(lc.children@[0])
            },
        },
    }
}

/// Validity of a list of children, reporting the first defect.
pub open spec fn all_valid(cs: Seq<Condition>) -> Outcome
    decreases cs,
{
    if cs.len() == 0 {
        Outcome::Matched(true)
    } else {
        match validity(cs[0]) {
            Outcome::Matched(true) => all_valid(cs.subrange(1, cs.len() as int)),
            other => other,
        }
    }
}

// ---------------------------------------------------------------------------
// Executable address helpers
// ---------------------------------------------------------------------------

/// The domain of an e-mail address: the text after its last `@`, unless empty.
pub fn extract_domain(email: &str) -> (r: Option<String>)
    ensures
        r matches Some(d) ==> domain_of(email@) == Some(d@),
        r is None ==> domain_of(email@) is None,
{
    let v = chars_of(email);
    proof {
        lemma_rfind_before(v@, '@', v@.len() as int);
    }
    match rfind_char_exec(&v, '@') {
        Some(k) => {
            if k + 1 == v.len() {
                None
            } else {
                let d = subvec(&v, k + 1, v.len());
                Some(string_from_chars(&d))
            }
        },
        None => None,
    }
}

/// Matches a sender pattern (`*@domain` or an address) against an address.
pub fn matches_sender_email(pattern: &str, email: &str) -> (r: bool)
    ensures
        r == sender_email_matches(pattern@, email@),
{
    let p = chars_of(pattern);
    if p.len() >= 2 && p[0] == '*' && p[1] == '@' {
        assert(p@.subrange(0, 2) =~= seq!['*', '@']);
        let wanted = subvec(&p, 2, p.len());
        match extract_domain(email) {
            Some(d) => {
                let dv = chars_of(d.as_str());
                eq_ignore_ascii_case_vec(&dv, &wanted)
            },
            None => false,
        }
    } else {
        proof {
            if starts_with_seq(pattern@, seq!['*', '@']) {
                assert(p@.subrange(0, 2)[0] == '*');
                assert(p@.subrange(0, 2)[1] == '@');
            }
        }
        eq_ignore_ascii_case(pattern, email)
    }
}

// ---------------------------------------------------------------------------
// Regex cache
// ---------------------------------------------------------------------------

/// Per-evaluation cache of compiled regular expressions, keyed by pattern.
#[derive(Debug)]
pub struct EvaluationContext {
    regex_cache: Vec<CompiledRegex>,
}

impl EvaluationContext {
    /// Every cached regex comes from a pattern that compiles, and no pattern
    /// is cached twice.
    #[verifier::type_invariant]
    closed spec fn cache_compiled(self) -> bool {
        &&& forall|i: int| 0 <= i < self.regex_cache@.len() ==> regex_compiles(#[trigger] self.regex_cache@[i].source())
        &&& forall|i: int, j: int|
            0 <= i < j < self.regex_cache@.len() ==> (#[trigger] self.regex_cache@[i]).source()
                != (#[trigger] self.regex_cache@[j]).source()
    }

    /// The patterns whose regexes are cached, in the order they were first used.
    pub closed spec fn patterns(self) -> Seq<Seq<char>> {
        self.regex_cache@.map_values(|c: CompiledRegex| c.source())
    }

    /// The number of cached regexes.
    pub closed spec fn cached(self) -> nat {
        self.regex_cache@.len()
    }

    /// An empty cache.
    pub fn new() -> (r: Self)
        ensures
            r.cached() == 0,
    {
        EvaluationContext { regex_cache: Vec::new() }
    }

    /// Returns the regex for `pattern`, compiling and caching it on first use.
    /// Fails with `InvalidRegex` exactly when the pattern does not compile.
    pub fn get_or_compile_regex(&mut self, pattern: &str) -> (r: Result<&CompiledRegex, ConditionError>)
        ensures
            r is Ok <==> regex_compiles(pattern@),
            r matches Ok(c) ==> c.source() == pattern@,
            r matches Err(e) ==> outcome_of(Err(e)) == Outcome::InvalidRegex(pattern@),
            final(self).patterns() == if old(self).patterns().contains(pattern@) || !regex_compiles(pattern@) {
                old(self).patterns()
            } else {
                old(self).patterns().push(pattern@)
            },
    {
        proof {
            use_type_invariant(&*self);
        }
        let ghost before = self.patterns();
        let mut i: usize = 0;
        while i < self.regex_cache.len()
            invariant
                i <= self.regex_cache@.len(),
                before == self.patterns(),
                forall|j: int| 0 <= j < self.regex_cache@.len() ==> regex_compiles(#[trigger] self.regex_cache@[j].source()),
                forall|j: int| 0 <= j < i ==> (#[trigger] self.regex_cache@[j]).source() != pattern@,
            decreases self.regex_cache@.len() - i,
        {
            if str_eq(self.regex_cache[i].pattern(), pattern) {
                assert(self.patterns()[i as int] == pattern@);
                let c = &self.regex_cache[i];
                return Ok(c);
            }
            i = i + 1;
        }
        assert(!before.contains(pattern@)) by {
            if before.contains(pattern@) {
                let k = choose|k: int| 0 <= k < before.len() && before[k] == pattern@;
                assert(self.regex_cache@[k].source() == pattern@);
            }
        }
        match compile_regex(pattern) {
            Ok(c) => {
                let mut cache: Vec<CompiledRegex> = Vec::new();
                std::mem::swap(&mut cache, &mut self.regex_cache);
                cache.push(c);
                proof {
                    assert(cache@.map_values(|x: CompiledRegex| x.source()) =~= before.push(pattern@));
                    assert forall|a: int, b: int|
                        0 <= a < b < cache@.len() implies (#[trigger] cache@[a]).source() != (#[trigger] cache@[b]).source() by {
                        if b == cache@.len() - 1 {
                            assert(before[a] == cache@[a].source());
                        } else {
                            assert(cache@[a] == old(self).regex_cache@[a]);
                            assert(cache@[b] == old(self).regex_cache@[b]);
                        }
                    }
                }
                self.regex_cache = cache;
                let n = self.regex_cache.len();
                Ok(&self.regex_cache[n - 1])
            },
            Err(e) => Err(ConditionError::InvalidRegex { pattern: owned(pattern), source: e }),
        }
    }
}


// ---------------------------------------------------------------------------
// Evaluation
// ---------------------------------------------------------------------------

/// Evaluates one leaf condition against a message.
#[verifier::loop_isolation(false)]
pub fn evaluate_leaf(
    condition: &LeafCondition,
    message: &Message,
    ctx: &mut EvaluationContext,
) -> (r: Result<bool, ConditionError>)
    ensures
        outcome_of(r) == leaf_outcome(*condition, *message),
{
    match condition {
        LeafCondition::SenderEmail { value } => {
            match &message.from_email {
                Some(from) => Ok(matches_sender_email(value.as_str(), from.as_str())),
                None => Ok(false),
            }
        },
        LeafCondition::SenderDomain { value } => {
            match &message.from_email {
                Some(from) => match extract_domain(from.as_str()) {
                    Some(domain) => Ok(eq_ignore_ascii_case(domain.as_str(), value.as_str())),
                    None => Ok(false),
                },
                None => Ok(false),
            }
        },
        LeafCondition::SubjectContains { value } => {
            match &message.subject {
                Some(subject) => {
                    let hay = to_lowercase(subject.as_str());
                    let needle = to_lowercase(value.as_str());
                    let hv = chars_of(hay.as_str());
                    let nv = chars_of(needle.as_str());
                    Ok(contains_vec(&hv, &nv))
                },
                None => Ok(false),
            }
        },
        LeafCondition::SubjectRegex { value } => {
            match &message.subject {
                Some(subject) => {
                    match ctx.get_or_compile_regex(value.as_str()) {
                        Ok(regex) => Ok(regex.is_match(subject.as_str())),
                        Err(e) => Err(e),
                    }
                },
                None => Ok(false),
            }
        },
        LeafCondition::HeaderMatch { header, pattern } => {
            let regex = match ctx.get_or_compile_regex(pattern.as_str()) {
                Ok(regex) => regex,
                Err(e) => return Err(e),
            };
            let mut i: usize = 0;
            while i < message.headers.len()
                invariant
                    i <= message.headers@.len(),
                    regex.source() == pattern@,
                    forall|j: int|
                        0 <= j < i ==> !(eq_ignore_ascii_case_spec(
                            (#[trigger] message.headers@[j]).name@,
                            header@,
                        ) && regex_is_match(pattern@, message.headers@[j].value@)),
                decreases message.headers@.len() - i,
            {
                let h = &message.headers[i];
                if eq_ignore_ascii_case(h.name.as_str(), header.as_str()) && regex.is_match(
                    h.value.as_str(),
                ) {
                    assert(eq_ignore_ascii_case_spec(message.headers@[i as int].name@, header@)
                        && regex_is_match(pattern@, message.headers@[i as int].value@));
                    return Ok(true);
                }
                i = i + 1;
            }
            Ok(false)
        },
        LeafCondition::LabelPresent { value } => {
            let mut i: usize = 0;
            while i < message.labels.len()
                invariant
                    i <= message.labels@.len(),
                    forall|j: int| 0 <= j < i ==> (#[trigger] message.labels@[j])@ != value@,
                decreases message.labels@.len() - i,
            {
                if str_eq(message.labels[i].as_str(), value.as_str()) {
                    assert(message.labels@[i as int]@ == value@);
                    return Ok(true);
                }
                i = i + 1;
            }
            Ok(false)
        },
    }
}

/// Evaluates a condition tree against a message. The regex cache only saves
/// work: the result is the same whatever the cache holds.
#[verifier::loop_isolation(false)]
pub fn evaluate(
    condition: &Condition,
    message: &Message,
    ctx: &mut EvaluationContext,
) -> (r: Result<bool, ConditionError>)
    ensures
        outcome_of(r) == condition_outcome(*condition, *message),
    decreases condition,
{
    match condition {
        Condition::Leaf(leaf) => evaluate_leaf(leaf, message, ctx),
        Condition::Logical(logical) => {
            let n = logical.children.len();
            match logical.op {
                LogicalOperator::And => {
                    if n == 0 {
                        return Err(ConditionError::EmptyTree);
                    }
                    let ghost cs = logical.children@;
                    assert(cs.subrange(0, n as int) =~= cs);
                    let mut i: usize = 0;
                    while i < n
                        invariant
                            n == cs.len(),
                            cs == logical.children@,
                            i <= n,
                            all_outcome(cs, *message) == all_outcome(
                                cs.subrange(i as int, n as int),
                                *message,
                            ),
                        decreases n - i,
                    {
                        let ghost rest = cs.subrange(i as int, n as int);
                        assert(rest[0] == cs[i as int]);
                        assert(rest.subrange(1, rest.len() as int) =~= cs.subrange(
                            i + 1,
                            n as int,
                        ));
                        proof {
                            assert(decreases_to!(*condition => logical.children@[i as int]));
                        }
                        let child = match evaluate(&logical.children[i], message, ctx) {
                            Ok(b) => b,
                            Err(e) => return Err(e),
                        };
                        if !child {
                            return Ok(false);
                        }
                        i = i + 1;
                    }
                    assert(cs.subrange(n as int, n as int).len() == 0);
                    Ok(true)
                },
                LogicalOperator::Or => {
                    if n == 0 {
                        return Err(ConditionError::EmptyTree);
                    }
                    let ghost cs = logical.children@;
                    assert(cs.subrange(0, n as int) =~= cs);
                    let mut i: usize = 0;
                    while i < n
                        invariant
                            n == cs.len(),
                            cs == logical.children@,
                            i <= n,
                            any_outcome(cs, *message) == any_outcome(
                                cs.subrange(i as int, n as int),
                                *message,
                            ),
                        decreases n - i,
                    {
                        let ghost rest = cs.subrange(i as int, n as int);
                        assert(rest[0] == cs[i as int]);
                        assert(rest.subrange(1, rest.len() as int) =~= cs.subrange(
                            i + 1,
                            n as int,
                        ));
                        proof {
                            assert(decreases_to!(*condition => logical.children@[i as int]));
                        }
                        let child = match evaluate(&logical.children[i], message, ctx) {
                            Ok(b) => b,
                            Err(e) => return Err(e),
                        };
                        if child {
                            return Ok(true);
                        }
                        i = i + 1;
                    }
                    assert(cs.subrange(n as int, n as int).len() == 0);
                    Ok(false)
                },
                LogicalOperator::Not => {
                    if n != 1 {
                        return Err(ConditionError::InvalidNotChildCount(n));
                    }
                    proof {
                        assert(decreases_to!(*condition => logical.children@[0]));
                    }
                    match evaluate(&logical.children[0], message, ctx) {
                        Ok(b) => Ok(!b),
                        Err(e) => Err(e),
                    }
                },
            }
        },
    }
}

/// Checks the structure of a condition tree: AND/OR nodes need children and
/// NOT nodes exactly one child, at every depth.
#[verifier::loop_isolation(false)]
pub fn validate_condition(condition: &Condition) -> (r: Result<(), ConditionError>)
    ensures
        validation_outcome(r) == validity(*condition),
    decreases condition,
{
    match condition {
        Condition::Leaf(_) => Ok(()),
        Condition::Logical(logical) => {
            let n = logical.children.len();
            match logical.op {
                LogicalOperator::And | LogicalOperator::Or => {
                    if n == 0 {
                        return Err(ConditionError::EmptyTree);
                    }
                    let ghost cs = logical.children@;
                    assert(cs.subrange(0, n as int) =~= cs);
                    let mut i: usize = 0;
                    while i < n
                        invariant
                            n == cs.len(),
                            cs == logical.children@,
                            i <= n,
                            all_valid(cs) == all_valid(cs.subrange(i as int, n as int)),
                        decreases n - i,
                    {
                        let ghost rest = cs.subrange(i as int, n as int);
                        assert(rest[0] == cs[i as int]);
                        assert(rest.subrange(1, rest.len() as int) =~= cs.subrange(
                            i + 1,
                            n as int,
                        ));
                        proof {
                            assert(decreases_to!(*condition => logical.children@[i as int]));
                        }
                        match validate_condition(&logical.children[i]) {
                            Ok(()) => {},
                            Err(e) => return Err(e),
                        }
                        i = i + 1;
                    }
                    assert(cs.subrange(n as int, n as int).len() == 0);
                    Ok(())
                },
                LogicalOperator::Not => {
                    if n != 1 {
                        return Err(ConditionError::InvalidNotChildCount(n));
                    }
                    proof {
                        assert(decreases_to!(*condition => logical.children@[0]));
                    }
                    validate_condition(&logical.children[0])
                },
            }
        },
    }
}

/// The rest of reading a stored condition tree once its JSON has been
/// decoded: JSON `null` is an empty tree, a decoding failure is reported as
/// invalid JSON, and a decoded tree must pass [`validate_condition`].
pub fn checked_condition(json_is_null: bool, decoded: Result<Condition, serde_json::Error>) -> (r: Result<
    Condition,
    ConditionError,
>)
    ensures
        json_is_null ==> r matches Err(ConditionError::EmptyTree),
        !json_is_null ==> match decoded {
            Err(e) => r matches Err(ConditionError::InvalidJson(x)) && x == e,
            Ok(c) => match validity(c) {
                Outcome::Matched(_) => r matches Ok(d) && d == c,
                other => r matches Err(e) && outcome_of(Err(e)) == other,
            },
        },
{
    if json_is_null {
        return Err(ConditionError::EmptyTree);
    }
    match decoded {
        Err(e) => Err(ConditionError::InvalidJson(e)),
        Ok(c) => match validate_condition(&c) {
            Ok(()) => Ok(c),
            Err(e) => Err(e),
        },
    }
}


// ---------------------------------------------------------------------------
// Laws
// ---------------------------------------------------------------------------

/// Every child of the list evaluates without error.
pub open spec fn all_defined(cs: Seq<Condition>, m: Message) -> bool {
    forall|i: int| 0 <= i < cs.len() ==> (#[trigger] condition_outcome(cs[i], m)) is Matched
}

/// When no child fails, AND over children is true exactly when every child is
/// true, and OR is true exactly when some child is true.
pub proof fn lemma_and_or_semantics(cs: Seq<Condition>, m: Message)
    requires
        all_defined(cs, m),
    ensures
        all_outcome(cs, m) == Outcome::Matched(
            forall|i: int| 0 <= i < cs.len() ==> #[trigger] condition_outcome(cs[i], m) == Outcome::Matched(true),
        ),
        any_outcome(cs, m) == Outcome::Matched(
            exists|i: int| 0 <= i < cs.len() && #[trigger] condition_outcome(cs[i], m) == Outcome::Matched(true),
        ),
    decreases cs.len(),
{
    if cs.len() > 0 {
        let rest = cs.subrange(1, cs.len() as int);
        assert forall|i: int| 0 <= i < rest.len() implies (#[trigger] condition_outcome(rest[i], m)) is Matched by {
            assert(rest[i] == cs[i + 1]);
        }
        lemma_and_or_semantics(rest, m);
        assert(condition_outcome(cs[0], m) is Matched);
        assert forall|i: int| 1 <= i < cs.len() implies cs[i] == rest[i - 1] by {}
        if condition_outcome(cs[0], m) == Outcome::Matched(true) {
            if exists|i: int| 0 <= i < cs.len() && #[trigger] condition_outcome(cs[i], m) == Outcome::Matched(true) {
            }
        } else {
            if (forall|i: int| 0 <= i < rest.len() ==> #[trigger] condition_outcome(rest[i], m) == Outcome::Matched(true)) {
                assert forall|i: int| 1 <= i < cs.len() implies #[trigger] condition_outcome(cs[i], m) == Outcome::Matched(true) by {
                    assert(cs[i] == rest[i - 1]);
                }
            }
            if exists|i: int| 0 <= i < cs.len() && #[trigger] condition_outcome(cs[i], m) == Outcome::Matched(true) {
                let k = choose|i: int| 0 <= i < cs.len() && #[trigger] condition_outcome(cs[i], m) == Outcome::Matched(true);
                assert(k != 0);
                assert(rest[k - 1] == cs[k]);
            }
        }
    }
}

/// A structurally valid tree can only fail to evaluate because of an invalid
/// regular expression: it never reports an empty node or a bad NOT node.
pub proof fn lemma_valid_tree_fails_only_on_regex(c: Condition, m: Message)
    requires
        validity(c) == Outcome::Matched(true),
    ensures
        condition_outcome(c, m) is Matched || condition_outcome(c, m) is InvalidRegex,
    decreases c,
{
    match c {
        Condition::Leaf(_) => {},
        Condition::Logical(lc) => {
            match lc.op {
                LogicalOperator::Not => {
                    lemma_valid_tree_fails_only_on_regex(lc.children@[0], m);
                },
                _ => {
                    lemma_valid_children_fail_only_on_regex(lc.children@, m);
                },
            }
        },
    }
}

/// List form of [`lemma_valid_tree_fails_only_on_regex`].
pub proof fn lemma_valid_children_fail_only_on_regex(cs: Seq<Condition>, m: Message)
    requires
        all_valid(cs) == Outcome::Matched(true),
    ensures
        all_outcome(cs, m) is Matched || all_outcome(cs, m) is InvalidRegex,
        any_outcome(cs, m) is Matched || any_outcome(cs, m) is InvalidRegex,
    decreases cs,
{
    if cs.len() > 0 {
        lemma_valid_tree_fails_only_on_regex(cs[0], m);
        lemma_valid_children_fail_only_on_regex(cs.subrange(1, cs.len() as int), m);
    }
}

/// The domain of an address is the non-empty text after its last `@`: it
/// holds no `@`, and the address is the part before, the `@` and the domain.
/// An address without `@`, or ending in `@`, has no domain.
pub proof fn lemma_domain_is_after_last_at(email: Seq<char>)
    ensures
        domain_of(email) matches Some(d) ==> {
            &&& d.len() > 0
            &&& d.len() < email.len()
            &&& email[email.len() - d.len() - 1] == '@'
            &&& d == email.subrange(email.len() - d.len(), email.len() as int)
            &&& forall|j: int| 0 <= j < d.len() ==> d[j] != '@'
        },
        (forall|j: int| 0 <= j < email.len() ==> email[j] != '@') ==> domain_of(email) is None,
        email.len() > 0 && email.last() == '@' ==> domain_of(email) is None,
{
    lemma_rfind_before(email, '@', email.len() as int);
    if domain_of(email) is Some {
        let k = rfind_char(email, '@')->0;
        let d = domain_of(email)->0;
        assert forall|j: int| 0 <= j < d.len() implies d[j] != '@' by {
            assert(d[j] == email[k + 1 + j]);
        }
    }
}

/// Sender tests compare over ASCII case: a domain test holds exactly when the
/// sender's address has a domain that lower-cases like the value; an address
/// test holds exactly when the address lower-cases like the value, and a
/// `*@domain` pattern holds exactly when the sender's domain lower-cases like
/// the pattern's domain. Without a sender address neither holds.
pub proof fn lemma_sender_tests_ignore_ascii_case(value: String, m: Message)
    ensures
        condition_outcome(Condition::Leaf(LeafCondition::SenderDomain { value }), m) == Outcome::Matched(
            m.from_email is Some && domain_of(m.from_email->0@) is Some && ascii_lower(
                domain_of(m.from_email->0@)->0,
            ) == ascii_lower(value@),
        ),
        !starts_with_seq(value@, seq!['*', '@']) ==> condition_outcome(
            Condition::Leaf(LeafCondition::SenderEmail { value }),
            m,
        ) == Outcome::Matched(m.from_email is Some && ascii_lower(m.from_email->0@) == ascii_lower(value@)),
        starts_with_seq(value@, seq!['*', '@']) ==> condition_outcome(
            Condition::Leaf(LeafCondition::SenderEmail { value }),
            m,
        ) == Outcome::Matched(
            m.from_email is Some && domain_of(m.from_email->0@) is Some && ascii_lower(
                domain_of(m.from_email->0@)->0,
            ) == ascii_lower(value@.subrange(2, value@.len() as int)),
        ),
{
}

/// Header tests compare header names over ASCII case and match the value
/// with the pattern; subject regex tests match the subject as written. A
/// pattern that does not compile makes either test fail with that pattern,
/// except that a message without a subject simply does not match a subject
/// regex.
pub proof fn lemma_regex_tests(header: String, pattern: String, m: Message)
    ensures
        regex_compiles(pattern@) ==> condition_outcome(
            Condition::Leaf(LeafCondition::HeaderMatch { header, pattern }),
            m,
        ) == Outcome::Matched(
            exists|i: int|
                0 <= i < m.headers@.len() && ascii_lower(#[trigger] m.headers@[i].name@) == ascii_lower(header@)
                    && regex_is_match(pattern@, m.headers@[i].value@),
        ),
        !regex_compiles(pattern@) ==> condition_outcome(Condition::Leaf(LeafCondition::HeaderMatch { header, pattern }), m)
            == Outcome::InvalidRegex(pattern@),
        m.subject is None ==> condition_outcome(Condition::Leaf(LeafCondition::SubjectRegex { value: pattern }), m)
            == Outcome::Matched(false),
        m.subject is Some && regex_compiles(pattern@) ==> condition_outcome(
            Condition::Leaf(LeafCondition::SubjectRegex { value: pattern }),
            m,
        ) == Outcome::Matched(regex_is_match(pattern@, m.subject->0@)),
        m.subject is Some && !regex_compiles(pattern@) ==> condition_outcome(
            Condition::Leaf(LeafCondition::SubjectRegex { value: pattern }),
            m,
        ) == Outcome::InvalidRegex(pattern@),
{
}

/// Structure checks: an AND or OR node without children is an empty tree, a
/// NOT node with other than one child reports its child count, a leaf is
/// always well formed, and a node whose children are all leaves is well
/// formed when it has the right number of them.
pub proof fn lemma_structure_checks(lc: LogicalCondition)
    ensures
        (lc.op == LogicalOperator::And || lc.op == LogicalOperator::Or) && lc.children@.len() == 0 ==> validity(
            Condition::Logical(lc),
        ) == Outcome::EmptyTree,
        lc.op == LogicalOperator::Not && lc.children@.len() != 1 ==> validity(Condition::Logical(lc))
            == Outcome::InvalidNotChildCount(lc.children@.len() as int),
        (forall|i: int| 0 <= i < lc.children@.len() ==> (#[trigger] lc.children@[i]) is Leaf) && (lc.op
            == LogicalOperator::Not ==> lc.children@.len() == 1) && lc.children@.len() > 0 ==> validity(
            Condition::Logical(lc),
        ) == Outcome::Matched(true),
{
    if (forall|i: int| 0 <= i < lc.children@.len() ==> (#[trigger] lc.children@[i]) is Leaf) && lc.children@.len() > 0 {
        lemma_all_leaves_valid(lc.children@);
    }
}

proof fn lemma_all_leaves_valid(cs: Seq<Condition>)
    requires
        forall|i: int| 0 <= i < cs.len() ==> (#[trigger] cs[i]) is Leaf,
    ensures
        all_valid(cs) == Outcome::Matched(true),
    decreases cs.len(),
{
    if cs.len() > 0 {
        let rest = cs.subrange(1, cs.len() as int);
        assert forall|i: int| 0 <= i < rest.len() implies (#[trigger] rest[i]) is Leaf by {
            assert(rest[i] == cs[i + 1]);
        }
        lemma_all_leaves_valid(rest);
        assert(cs[0] is Leaf);
        assert(validity(cs[0]) == Outcome::Matched(true));
    }
}

/// A subject-contains test ignores case on both sides: it holds exactly when
/// the message has a subject whose lower-cased text contains the lower-cased
/// value; so two messages whose subjects lower-case alike get the same
/// outcome, and a message without a subject never matches.
pub proof fn lemma_subject_contains_ignores_case(value: String, m1: Message, m2: Message)
    ensures
        condition_outcome(Condition::Leaf(LeafCondition::SubjectContains { value }), m1) == Outcome::Matched(
            m1.subject is Some && contains_seq(lowercase(m1.subject->0@), lowercase(value@)),
        ),
        m1.subject is Some && m2.subject is Some && lowercase(m1.subject->0@) == lowercase(m2.subject->0@)
            ==> condition_outcome(Condition::Leaf(LeafCondition::SubjectContains { value }), m1)
            == condition_outcome(Condition::Leaf(LeafCondition::SubjectContains { value }), m2),
        m1.subject is None ==> condition_outcome(Condition::Leaf(LeafCondition::SubjectContains { value }), m1)
            == Outcome::Matched(false),
{
}

/// A label test holds exactly when one of the message's labels is the value.
pub proof fn lemma_label_present_exact(value: String, m: Message)
    ensures
        condition_outcome(Condition::Leaf(LeafCondition::LabelPresent { value }), m) == Outcome::Matched(
            exists|i: int| 0 <= i < m.labels@.len() && (#[trigger] m.labels@[i])@ == value@,
        ),
{
}

/// A NOT node applied twice gives back the outcome of the inner condition.
pub proof fn lemma_double_negation(outer: LogicalCondition, inner: LogicalCondition, m: Message)
    requires
        outer.op == LogicalOperator::Not,
        outer.children@ == seq![Condition::Logical(inner)],
        inner.op == LogicalOperator::Not,
        inner.children@.len() == 1,
    ensures
        condition_outcome(Condition::Logical(outer), m) == condition_outcome(inner.children@[0], m),
{
    let mid = condition_outcome(Condition::Logical(inner), m);
    assert(outer.children@[0] == Condition::Logical(inner));
    assert(condition_outcome(Condition::Logical(outer), m) == match mid {
        Outcome::Matched(b) => Outcome::Matched(!b),
        other => other,
    });
    match condition_outcome(inner.children@[0], m) {
        Outcome::Matched(b) => {},
        _ => {},
    }
}

} // verus!
