//! Builds the chat sent to the model for one message: a fixed system message
//! and a user message made of directions, LLM rules, the message context and
//! the task directive.

use vstd::prelude::*;

use crate::llm::decision::{action_name, ActionType};
use crate::llm::types::{ChatMessage, ChatRole};
use crate::messages::{Header, Mailbox, Message};
use crate::rules::types::{Direction, LlmRule};
use crate::text::{
    ascii_lower, ascii_lower_vec, chars_of, decimal, decimal_vec, is_blank, is_blank_str, is_ws,
    is_ws_exec, join_seq, join_vecs, push_all, push_str, split_char, split_char_vec, string_from_chars,
    subvec, trim_end_seq, trim_end_vec, trim_seq, trim_vec, vec_eq, contains_seq, occurs_at,
    lemma_contains_middle, lemma_contains_trans, lemma_join_contains_part, lemma_occurs_at_trans,
};

verus! {

// ---------------------------------------------------------------------------
// Truncation
// ---------------------------------------------------------------------------

/// The last position before `end` holding white space, if any.
pub open spec fn last_ws_before(s: Seq<char>, end: int) -> Option<int>
    decreases end,
{
    if end <= 0 {
        None
    } else if is_ws(s[end - 1]) {
        Some(end - 1)
    } else {
        last_ws_before(s, end - 1)
    }
}

/// `n` dots.
pub open spec fn dots(n: nat) -> Seq<char> {
    Seq::new(n, |i: int| '.')
}

/// `text` cut to at most `max_len` characters: unchanged when it fits; else
/// the first `max_len - 3` characters, cut back to their last white space when
/// they hold one, followed by `...` (or only dots when `max_len` is 3 or less).
pub open spec fn truncate_spec(text: Seq<char>, max_len: nat) -> Seq<char> {
    if max_len == 0 {
        Seq::empty()
    } else if text.len() <= max_len {
        text
    } else if max_len <= 3 {
        dots(max_len)
    } else {
        let head = text.take(max_len - 3);
        let kept = match last_ws_before(head, head.len() as int) {
            Some(i) => head.take(i),
            None => head,
        };
        kept + dots(3)
    }
}

proof fn lemma_last_ws_before_bounds(s: Seq<char>, end: int)
    requires
        end <= s.len(),
    ensures
        last_ws_before(s, end) matches Some(i) ==> 0 <= i < end && is_ws(s[i]),
    decreases end,
{
    if end > 0 && !is_ws(s[end - 1]) {
        lemma_last_ws_before_bounds(s, end - 1);
    }
}

/// Cuts `text` to at most `max_len` characters, marking a cut with `...`.
pub fn truncate_text(text: &str, max_len: usize) -> (r: String)
    ensures
        r@ == truncate_spec(text@, max_len as nat),
        r@.len() <= max_len,
        text@.len() <= max_len && max_len > 0 ==> r@ == text@,
{
    let chars = chars_of(text);
    let mut out: Vec<char> = Vec::new();
    if max_len == 0 {
    } else if chars.len() <= max_len {
        out = chars;
    } else if max_len <= 3 {
        let mut i: usize = 0;
        while i < max_len
            invariant
                i <= max_len,
                out@ == dots(i as nat),
            decreases max_len - i,
        {
            out.push('.');
            i = i + 1;
            assert(out@ =~= dots(i as nat));
        }
    } else {
        let target = max_len - 3;
        let head = subvec(&chars, 0, target);
        assert(head@ =~= chars@.take(target as int));
        let mut end = head.len();
        let mut cut: Option<usize> = None;
        while end > 0
            invariant
                end <= head.len(),
                last_ws_before(head@, head@.len() as int) == match cut {
                    Some(i) => Some(i as int),
                    None => last_ws_before(head@, end as int),
                },
                cut is Some ==> end == 0,
            decreases end,
        {
            if is_ws_exec(head[end - 1]) {
                cut = Some(end - 1);
                end = 0;
            } else {
                end = end - 1;
            }
        }
        proof {
            lemma_last_ws_before_bounds(head@, head@.len() as int);
        }
        out = match cut {
            Some(i) => subvec(&head, 0, i),
            None => head,
        };
        out.push('.');
        out.push('.');
        out.push('.');
        assert(out@ =~= truncate_spec(chars@, max_len as nat));
    }
    string_from_chars(&out)
}

// ---------------------------------------------------------------------------
// Headers
// ---------------------------------------------------------------------------

/// Header names, lower-cased, that are shown to the model.
pub open spec fn relevant_header_names() -> Seq<Seq<char>> {
    seq![
        "list-id"@,
        "return-path"@,
        "x-priority"@,
        "x-mailer"@,
        "reply-to"@,
        "precedence"@,
    ]
}

/// The header's name, ASCII lower-cased, is on the list of relevant names.
pub open spec fn is_relevant_header(h: Header) -> bool {
    relevant_header_names().contains(ascii_lower(h.name@))
}

/// The relevant headers of `hs`, in the order given.
pub open spec fn relevant_headers(hs: Seq<Header>) -> Seq<Header>
    decreases hs.len(),
{
    if hs.len() == 0 {
        hs
    } else {
        let rest = relevant_headers(hs.drop_last());
        if is_relevant_header(hs.last()) {
            rest.push(hs.last())
        } else {
            rest
        }
    }
}

fn is_relevant_header_exec(h: &Header) -> (r: bool)
    ensures
        r == is_relevant_header(*h),
{
    let lower = ascii_lower_vec(&chars_of(h.name.as_str()));
    let names = [
        chars_of("list-id"),
        chars_of("return-path"),
        chars_of("x-priority"),
        chars_of("x-mailer"),
        chars_of("reply-to"),
        chars_of("precedence"),
    ];
    let ghost spec_names = relevant_header_names();
    assert(names@.map_values(|v: Vec<char>| v@) =~= spec_names);
    let mut i: usize = 0;
    while i < 6
        invariant
            i <= 6,
            names@.len() == 6,
            names@.map_values(|v: Vec<char>| v@) == spec_names,
            spec_names == relevant_header_names(),
            lower@ == ascii_lower(h.name@),
            forall|j: int| 0 <= j < i ==> spec_names[j] != lower@,
        decreases 6 - i,
    {
        if vec_eq(&lower, &names[i]) {
            assert(spec_names[i as int] == lower@);
            return true;
        }
        i = i + 1;
    }
    assert(!spec_names.contains(lower@)) by {
        if spec_names.contains(lower@) {
            let j = choose|j: int| 0 <= j < spec_names.len() && spec_names[j] == lower@;
            assert(spec_names[j] != lower@);
        }
    }
    false
}

/// Header filtering keeps exactly the relevant headers: every kept header is
/// relevant and comes from the input, no kept list is longer than the input,
/// and every relevant input header is kept.
pub proof fn lemma_relevant_headers_exact(hs: Seq<Header>)
    ensures
        relevant_headers(hs).len() <= hs.len(),
        forall|k: int|
            0 <= k < relevant_headers(hs).len() ==> is_relevant_header(#[trigger] relevant_headers(hs)[k])
                && hs.contains(relevant_headers(hs)[k]),
        forall|i: int| 0 <= i < hs.len() && is_relevant_header(#[trigger] hs[i]) ==> relevant_headers(hs).contains(hs[i]),
    decreases hs.len(),
{
    if hs.len() > 0 {
        let init = hs.drop_last();
        lemma_relevant_headers_exact(init);
        let rest = relevant_headers(init);
        let r = relevant_headers(hs);
        assert forall|k: int| 0 <= k < r.len() implies is_relevant_header(#[trigger] r[k]) && hs.contains(r[k]) by {
            if k < rest.len() {
                assert(r[k] == rest[k]);
                let j = choose|j: int| 0 <= j < init.len() && init[j] == rest[k];
                assert(hs[j] == init[j]);
            } else {
                assert(r[k] == hs.last());
                assert(hs[hs.len() - 1] == hs.last());
            }
        }
        assert forall|i: int| 0 <= i < hs.len() && is_relevant_header(#[trigger] hs[i]) implies r.contains(hs[i]) by {
            if i < hs.len() - 1 {
                assert(init[i] == hs[i]);
                assert(rest.contains(init[i]));
                let k = choose|k: int| 0 <= k < rest.len() && rest[k] == init[i];
                if is_relevant_header(hs.last()) {
                    assert(r[k] == rest[k]);
                }
            } else {
                assert(r[r.len() - 1] == hs.last());
            }
        }
    }
}

/// The headers shown to the model: those whose name (ignoring ASCII case) is
/// one of `List-Id`, `Return-Path`, `X-Priority`, `X-Mailer`, `Reply-To` and
/// `Precedence`, in the order given.
pub fn filter_relevant_headers(headers: &Vec<Header>) -> (r: Vec<Header>)
    ensures
        r@ == relevant_headers(headers@),
{
    let mut r: Vec<Header> = Vec::new();
    let mut i: usize = 0;
    while i < headers.len()
        invariant
            i <= headers.len(),
            r@ == relevant_headers(headers@.take(i as int)),
        decreases headers.len() - i,
    {
        let h = &headers[i];
        assert(headers@.take(i + 1).drop_last() =~= headers@.take(i as int));
        if is_relevant_header_exec(h) {
            r.push(h.clone());
        }
        i = i + 1;
    }
    assert(headers@.take(headers.len() as int) =~= headers@);
    r
}

// ---------------------------------------------------------------------------
// Addresses
// ---------------------------------------------------------------------------

/// `Name <email>` when the mailbox has a non-blank name, else the address.
pub open spec fn mailbox_text(m: Mailbox) -> Seq<char> {
    match m.name {
        Some(n) => if !is_blank(n@) {
            n@ + " <"@ + m.email@ + ">"@
        } else {
            m.email@
        },
        None => m.email@,
    }
}

/// The mailboxes separated by `, `, or `(none)` for an empty list.
pub open spec fn mailbox_list_text(list: Seq<Mailbox>) -> Seq<char> {
    if list.len() == 0 {
        "(none)"@
    } else {
        join_seq(list.map_values(|m: Mailbox| mailbox_text(m)), ", "@)
    }
}

/// The sender: `Name <email>` with a non-blank name, the bare address, or
/// `(unknown)` without an address.
pub open spec fn from_text(from_name: Option<String>, from_email: Option<String>) -> Seq<char> {
    match from_email {
        Some(e) => match from_name {
            Some(n) => if !is_blank(n@) {
                n@ + " <"@ + e@ + ">"@
            } else {
                e@
            },
            None => e@,
        },
        None => "(unknown)"@,
    }
}

fn name_and_address(name: &str, email: &str) -> (r: Vec<char>)
    ensures
        r@ == name@ + " <"@ + email@ + ">"@,
{
    let mut v = chars_of(name);
    push_str(&mut v, " <");
    push_str(&mut v, email);
    push_str(&mut v, ">");
    v
}

fn format_mailbox(m: &Mailbox) -> (r: Vec<char>)
    ensures
        r@ == mailbox_text(*m),
{
    match &m.name {
        Some(n) => {
            if !is_blank_str(n.as_str()) {
                name_and_address(n.as_str(), m.email.as_str())
            } else {
                chars_of(m.email.as_str())
            }
        },
        None => chars_of(m.email.as_str()),
    }
}

fn format_mailbox_list(list: &Vec<Mailbox>) -> (r: Vec<char>)
    ensures
        r@ == mailbox_list_text(list@),
{
    if list.len() == 0 {
        return chars_of("(none)");
    }
    let mut parts: Vec<Vec<char>> = Vec::new();
    let mut i: usize = 0;
    while i < list.len()
        invariant
            i <= list.len(),
            parts@.len() == i,
            forall|j: int| 0 <= j < i ==> (#[trigger] parts@[j])@ == mailbox_text(list@[j]),
        decreases list.len() - i,
    {
        parts.push(format_mailbox(&list[i]));
        i = i + 1;
    }
    assert(parts@.map_values(|p: Vec<char>| p@) =~= list@.map_values(|m: Mailbox| mailbox_text(m)));
    join_vecs(&parts, &chars_of(", "))
}

fn format_from(from_name: &Option<String>, from_email: &Option<String>) -> (r: Vec<char>)
    ensures
        r@ == from_text(*from_name, *from_email),
{
    match from_email {
        Some(e) => match from_name {
            Some(n) => {
                if !is_blank_str(n.as_str()) {
                    name_and_address(n.as_str(), e.as_str())
                } else {
                    chars_of(e.as_str())
                }
            },
            None => chars_of(e.as_str()),
        },
        None => chars_of("(unknown)"),
    }
}

// ---------------------------------------------------------------------------
// Directions and LLM rules
// ---------------------------------------------------------------------------

/// The numbered lines of the directions, each preceded by a line break.
pub open spec fn numbered_directions(ds: Seq<Direction>) -> Seq<char>
    decreases ds.len(),
{
    if ds.len() == 0 {
        Seq::empty()
    } else {
        numbered_directions(ds.drop_last()) + "\n"@ + decimal(ds.len()) + ". "@ + ds.last().content@
    }
}

/// `DIRECTIONS:` followed by one numbered line per direction; empty when there
/// are no directions.
pub open spec fn directions_text(ds: Seq<Direction>) -> Seq<char> {
    if ds.len() == 0 {
        Seq::empty()
    } else {
        "DIRECTIONS:"@ + numbered_directions(ds)
    }
}

/// The directions section of the prompt.
pub fn build_directions_section(directions: &Vec<Direction>) -> (r: String)
    ensures
        r@ == directions_text(directions@),
{
    let mut v: Vec<char> = Vec::new();
    if directions.len() == 0 {
        return string_from_chars(&v);
    }
    push_str(&mut v, "DIRECTIONS:");
    let ghost head = v@;
    let mut i: usize = 0;
    while i < directions.len()
        invariant
            i <= directions.len(),
            head == "DIRECTIONS:"@,
            v@ == head + numbered_directions(directions@.take(i as int)),
        decreases directions.len() - i,
    {
        push_str(&mut v, "\n");
        let n = decimal_vec((i + 1) as u64);
        push_all(&mut v, &n);
        push_str(&mut v, ". ");
        push_str(&mut v, directions[i].content.as_str());
        proof {
            assert(directions@.take(i + 1).drop_last() =~= directions@.take(i as int));
        }
        i = i + 1;
    }
    assert(directions@.take(directions.len() as int) =~= directions@);
    string_from_chars(&v)
}

/// The lines describing one LLM rule: its name, its description when it is
/// not blank, and its text.
pub open spec fn rule_lines(r: LlmRule) -> Seq<Seq<char>> {
    seq!["LLM RULE: "@ + r.name@] + match r.description {
        Some(d) => if !is_blank(d@) {
            seq![d@]
        } else {
            Seq::empty()
        },
        None => Seq::empty(),
    } + seq![r.rule_text@]
}

/// The rule blocks, separated by blank lines.
pub open spec fn llm_rules_text(rs: Seq<LlmRule>) -> Seq<char> {
    join_seq(rs.map_values(|r: LlmRule| join_seq(rule_lines(r), "\n"@)), "\n\n"@)
}

/// The prompt carries every standing instruction and every LLM rule: each
/// direction's content appears in the directions section, numbered by its
/// position (`<n>. <content>`), and each rule's text and name appear in the
/// rules section.
pub proof fn lemma_sections_carry_every_entry(ds: Seq<Direction>, rs: Seq<LlmRule>)
    ensures
        forall|i: int|
            0 <= i < ds.len() ==> contains_seq(
                directions_text(ds),
                decimal((i + 1) as nat) + ". "@ + (#[trigger] ds[i]).content@,
            ),
        forall|i: int| 0 <= i < rs.len() ==> contains_seq(llm_rules_text(rs), (#[trigger] rs[i]).rule_text@),
        forall|i: int| 0 <= i < rs.len() ==> contains_seq(llm_rules_text(rs), "LLM RULE: "@ + (#[trigger] rs[i]).name@),
{
    assert forall|i: int| 0 <= i < ds.len() implies contains_seq(
        directions_text(ds),
        decimal((i + 1) as nat) + ". "@ + (#[trigger] ds[i]).content@,
    ) by {
        lemma_numbered_directions_holds(ds, i);
        lemma_contains_middle("DIRECTIONS:"@, numbered_directions(ds), Seq::empty());
        assert("DIRECTIONS:"@ + numbered_directions(ds) + Seq::<char>::empty() =~= directions_text(ds));
        lemma_contains_trans(directions_text(ds), numbered_directions(ds), decimal((i + 1) as nat) + ". "@ + ds[i].content@);
    }
    let blocks = rs.map_values(|r: LlmRule| join_seq(rule_lines(r), "\n"@));
    assert forall|i: int| 0 <= i < rs.len() implies contains_seq(llm_rules_text(rs), (#[trigger] rs[i]).rule_text@)
        && contains_seq(llm_rules_text(rs), "LLM RULE: "@ + rs[i].name@) by {
        let lines = rule_lines(rs[i]);
        assert(blocks[i] == join_seq(lines, "\n"@));
        lemma_join_contains_part(blocks, "\n\n"@, i);
        lemma_join_contains_part(lines, "\n"@, lines.len() - 1);
        lemma_join_contains_part(lines, "\n"@, 0);
        lemma_contains_trans(llm_rules_text(rs), blocks[i], lines[lines.len() - 1]);
        lemma_contains_trans(llm_rules_text(rs), blocks[i], lines[0]);
    }
}

proof fn lemma_numbered_directions_holds(ds: Seq<Direction>, i: int)
    requires
        0 <= i < ds.len(),
    ensures
        contains_seq(numbered_directions(ds), decimal((i + 1) as nat) + ". "@ + ds[i].content@),
    decreases ds.len(),
{
    let line = decimal((i + 1) as nat) + ". "@ + ds[i].content@;
    let prev = numbered_directions(ds.drop_last());
    let nl = "\n"@;
    let last_line = decimal(ds.len()) + ". "@ + ds.last().content@;
    assert(numbered_directions(ds) == prev + nl + decimal(ds.len()) + ". "@ + ds.last().content@);
    assert(numbered_directions(ds) =~= prev + (nl + last_line));
    if i == ds.len() - 1 {
        assert(line == last_line);
        lemma_contains_middle(prev + nl, line, Seq::empty());
        assert(prev + nl + line + Seq::<char>::empty() =~= numbered_directions(ds));
    } else {
        lemma_numbered_directions_holds(ds.drop_last(), i);
        assert(ds.drop_last()[i] == ds[i]);
        lemma_contains_middle(Seq::empty(), prev, nl + last_line);
        assert(Seq::<char>::empty() + prev + (nl + last_line) =~= numbered_directions(ds));
        lemma_contains_trans(numbered_directions(ds), prev, line);
    }
}

fn rule_block(rule: &LlmRule) -> (r: Vec<char>)
    ensures
        r@ == join_seq(rule_lines(*rule), "\n"@),
{
    let mut lines: Vec<Vec<char>> = Vec::new();
    let mut first = chars_of("LLM RULE: ");
    push_str(&mut first, rule.name.as_str());
    lines.push(first);
    match &rule.description {
        Some(d) => {
            if !is_blank_str(d.as_str()) {
                lines.push(chars_of(d.as_str()));
            }
        },
        None => {},
    }
    lines.push(chars_of(rule.rule_text.as_str()));
    assert(lines@.map_values(|p: Vec<char>| p@) =~= rule_lines(*rule));
    join_vecs(&lines, &chars_of("\n"))
}

/// The LLM rules section of the prompt; empty when there are no rules.
pub fn build_llm_rules_section(rules: &Vec<LlmRule>) -> (r: String)
    ensures
        r@ == llm_rules_text(rules@),
{
    let mut parts: Vec<Vec<char>> = Vec::new();
    let mut i: usize = 0;
    while i < rules.len()
        invariant
            i <= rules.len(),
            parts@.len() == i,
            forall|j: int| 0 <= j < i ==> (#[trigger] parts@[j])@ == join_seq(rule_lines(rules@[j]), "\n"@),
        decreases rules.len() - i,
    {
        parts.push(rule_block(&rules[i]));
        i = i + 1;
    }
    assert(parts@.map_values(|p: Vec<char>| p@) =~= rules@.map_values(
        |r: LlmRule| join_seq(rule_lines(r), "\n"@),
    ));
    let joined = join_vecs(&parts, &chars_of("\n\n"));
    string_from_chars(&joined)
}

// ---------------------------------------------------------------------------
// Outside calls (html2text, serde_json)
// ---------------------------------------------------------------------------

/// The plain text `html2text::from_read` renders from an HTML document at the
/// given line width, or `None` when it reports an error. It depends on the
/// document and the width alone.
pub uninterp spec fn rendered_html(html: Seq<char>, width: nat) -> Option<Seq<char>>;

/// A hexadecimal digit, lower-case.
pub open spec fn hex_digit(n: int) -> char {
    if n < 10 {
        ('0' as int + n) as char
    } else {
        ('a' as int + n - 10) as char
    }
}

/// How JSON writes one character inside a string: `"` and `\` escaped, the
/// control characters backspace, tab, line feed, form feed and carriage
/// return by their short escapes, the other characters below U+0020 as
/// `\u00XX` with lower-case hex digits, and every other character as it is.
pub open spec fn json_char_escape(c: char) -> Seq<char> {
    if c == '"' {
        seq!['\\', '"']
    } else if c == '\\' {
        seq!['\\', '\\']
    } else if c == '\u{8}' {
        seq!['\\', 'b']
    } else if c == '\t' {
        seq!['\\', 't']
    } else if c == '\n' {
        seq!['\\', 'n']
    } else if c == '\u{c}' {
        seq!['\\', 'f']
    } else if c == '\r' {
        seq!['\\', 'r']
    } else if (c as int) < 0x20 {
        seq!['\\', 'u', '0', '0', hex_digit((c as int) / 16), hex_digit((c as int) % 16)]
    } else {
        seq![c]
    }
}

/// The characters of a string with JSON escapes applied.
pub open spec fn json_escaped(s: Seq<char>) -> Seq<char>
    decreases s.len(),
{
    if s.len() == 0 {
        Seq::empty()
    } else {
        json_escaped(s.drop_last()) + json_char_escape(s.last())
    }
}

/// The compact JSON text of a list of strings, as `serde_json::to_string`
/// writes it: `[`, the quoted, escaped strings separated by `,`, then `]`.
pub open spec fn json_string_list_text(items: Seq<Seq<char>>) -> Seq<char> {
    seq!['['] + join_seq(items.map_values(|t: Seq<char>| seq!['"'] + json_escaped(t) + seq!['"']), seq![',']) + seq![']']
}

/// Renders HTML as wrapped plain text (`html2text::from_read`). The contract
/// names the result; html2text's rendering rules are not restated. Its
/// documentation promises an error value, not a panic, for input it cannot
/// render; its renderer does hold `unwrap` and `panic!` calls on node shapes
/// its own parser builds (table cells inside table rows, column widths set by
/// layout), and neither its source nor its documentation names an input that
/// reaches them, so no input is excluded here.
#[verifier::external_body]
fn render_html(html: &str, width: usize) -> (r: Option<String>)
    ensures
        match r {
            Some(t) => rendered_html(html@, width as nat) == Some(t@),
            None => rendered_html(html@, width as nat) is None,
        },
{
    html2text::from_read(html.as_bytes(), width).ok()
}

/// Serialises a list of strings as a compact JSON array
/// (`serde_json::to_string`). Serialising strings cannot fail, and the text
/// is written as `json_string_list_text` states (serde_json's `ESCAPE` table
/// and `CompactFormatter`).
#[verifier::external_body]
fn labels_json(labels: &Vec<String>) -> (r: Option<String>)
    ensures
        r is Some,
        r.unwrap()@ == json_string_list_text(labels@.map_values(|l: String| l@)),
{
    serde_json::to_string(labels).ok()
}

// ---------------------------------------------------------------------------
// Message bodies
// ---------------------------------------------------------------------------

/// The line width HTML bodies are rendered at.
pub const HTML_RENDER_WIDTH: usize = 80;

/// Plain text of an HTML body: the rendered text (empty when rendering fails),
/// trimmed, with trailing white space removed from every line.
pub open spec fn strip_html_spec(html: Seq<char>) -> Seq<char> {
    let rendered = match rendered_html(html, HTML_RENDER_WIDTH as nat) {
        Some(t) => t,
        None => Seq::empty(),
    };
    join_seq(
        split_char(trim_seq(rendered), '\n').map_values(|l: Seq<char>| trim_end_seq(l)),
        "\n"@,
    )
}

/// Converts an HTML body to plain text.
pub fn strip_html(html: &str) -> (r: String)
    ensures
        r@ == strip_html_spec(html@),
{
    let rendered = match render_html(html, HTML_RENDER_WIDTH) {
        Some(t) => chars_of(t.as_str()),
        None => Vec::new(),
    };
    let trimmed = trim_vec(&rendered);
    let pieces = split_char_vec(&trimmed, '\n');
    let ghost pv = pieces@.map_values(|p: Vec<char>| p@);
    let mut lines: Vec<Vec<char>> = Vec::new();
    let mut i: usize = 0;
    while i < pieces.len()
        invariant
            i <= pieces.len(),
            pv == pieces@.map_values(|p: Vec<char>| p@),
            lines@.len() == i,
            forall|j: int| 0 <= j < i ==> (#[trigger] lines@[j])@ == trim_end_seq(pv[j]),
        decreases pieces.len() - i,
    {
        lines.push(trim_end_vec(&pieces[i]));
        i = i + 1;
    }
    assert(lines@.map_values(|p: Vec<char>| p@) =~= pv.map_values(|l: Seq<char>| trim_end_seq(l)));
    let joined = join_vecs(&lines, &chars_of("\n"));
    string_from_chars(&joined)
}

/// The body shown to the model: the plain-text body when there is one, else
/// the HTML body converted to text, cut to `max_len` characters.
pub open spec fn body_text_spec(
    body_plain: Option<String>,
    body_html: Option<String>,
    max_len: nat,
) -> Option<Seq<char>> {
    match body_plain {
        Some(p) => Some(truncate_spec(p@, max_len)),
        None => match body_html {
            Some(h) => Some(truncate_spec(strip_html_spec(h@), max_len)),
            None => None,
        },
    }
}

/// The body of `message` as shown to the model, if it has one.
pub fn get_body_text(message: &Message, max_len: usize) -> (r: Option<String>)
    ensures
        match r {
            Some(t) => body_text_spec(message.body_plain, message.body_html, max_len as nat)
                == Some(t@),
            None => body_text_spec(message.body_plain, message.body_html, max_len as nat) is None,
        },
{
    match &message.body_plain {
        Some(plain) => Some(truncate_text(plain.as_str(), max_len)),
        None => match &message.body_html {
            Some(html) => {
                let text = strip_html(html.as_str());
                Some(truncate_text(text.as_str(), max_len))
            },
            None => None,
        },
    }
}

// ---------------------------------------------------------------------------
// Message context
// ---------------------------------------------------------------------------

/// `Headers:` followed by one `- Name: value` line per header; nothing when
/// there are no headers.
pub open spec fn header_lines(hs: Seq<Header>) -> Seq<Seq<char>> {
    if hs.len() == 0 {
        Seq::empty()
    } else {
        seq!["Headers:"@] + hs.map_values(|h: Header| "- "@ + h.name@ + ": "@ + h.value@)
    }
}

/// The labels as a compact JSON array of strings.
pub open spec fn labels_text(labels: Seq<String>) -> Seq<char> {
    json_string_list_text(labels.map_values(|l: String| l@))
}

/// A line when the condition holds, else nothing.
pub open spec fn line_if(cond: bool, line: Seq<char>) -> Seq<Seq<char>> {
    if cond {
        seq![line]
    } else {
        Seq::empty()
    }
}

/// The opening lines: title, sender and recipients.
pub open spec fn address_lines(m: Message) -> Seq<Seq<char>> {
    seq![
        "MESSAGE CONTEXT:"@,
        "From: "@ + from_text(m.from_name, m.from_email),
        "To: "@ + mailbox_list_text(m.to@),
    ] + line_if(m.cc@.len() > 0, "Cc: "@ + mailbox_list_text(m.cc@)) + line_if(
        m.bcc@.len() > 0,
        "Bcc: "@ + mailbox_list_text(m.bcc@),
    )
}

/// The subject (cut to `max_subject`) and snippet lines, when present.
pub open spec fn subject_lines(m: Message, max_subject: nat) -> Seq<Seq<char>> {
    let subject: Seq<Seq<char>> = match m.subject {
        Some(s) => seq!["Subject: "@ + truncate_spec(s@, max_subject)],
        None => Seq::empty(),
    };
    let snippet: Seq<Seq<char>> = match m.snippet {
        Some(s) => seq!["Snippet: "@ + s@],
        None => Seq::empty(),
    };
    subject + snippet
}

/// The labels line and, when there is a body, `Body:` and the body text.
pub open spec fn closing_lines(m: Message, max_body: nat) -> Seq<Seq<char>> {
    seq!["Labels: "@ + labels_text(m.labels@)] + match body_text_spec(
        m.body_plain,
        m.body_html,
        max_body,
    ) {
        Some(b) => seq!["Body:"@, b],
        None => Seq::empty(),
    }
}

/// The lines describing a message to the model.
pub open spec fn message_context_lines(m: Message, max_subject: nat, max_body: nat) -> Seq<
    Seq<char>,
> {
    address_lines(m) + subject_lines(m, max_subject) + header_lines(relevant_headers(m.headers@))
        + closing_lines(m, max_body)
}

/// The body shown to the model is the plain-text body when there is one (in
/// full when it fits the limit), else the text of the HTML body, and nothing
/// only when the message has neither. The context ends with that body, right
/// after a `Body:` line.
pub proof fn lemma_body_prefers_plain_text(m: Message, max_subject: nat, max_body: nat)
    ensures
        m.body_plain is Some && 0 < m.body_plain->0@.len() <= max_body ==> body_text_spec(
            m.body_plain,
            m.body_html,
            max_body,
        ) == Some(m.body_plain->0@),
        m.body_plain is None && m.body_html is Some ==> body_text_spec(m.body_plain, m.body_html, max_body)
            == Some(truncate_spec(strip_html_spec(m.body_html->0@), max_body)),
        (body_text_spec(m.body_plain, m.body_html, max_body) is None) <==> (m.body_plain is None
            && m.body_html is None),
        body_text_spec(m.body_plain, m.body_html, max_body) matches Some(b) ==> {
            let lines = message_context_lines(m, max_subject, max_body);
            &&& lines.last() == b
            &&& lines[lines.len() - 2] == "Body:"@
        },
{
    let lines = message_context_lines(m, max_subject, max_body);
    let head = address_lines(m) + subject_lines(m, max_subject) + header_lines(relevant_headers(m.headers@));
    assert(lines =~= head + closing_lines(m, max_body));
}

/// Each address of a mailbox occurs in its rendered text.
pub proof fn lemma_mailbox_text_holds_email(b: Mailbox)
    ensures
        contains_seq(mailbox_text(b), b.email@),
{
    match b.name {
        Some(n) => if !is_blank(n@) {
            lemma_contains_middle(n@ + " <"@, b.email@, ">"@);
        } else {
            lemma_contains_middle(Seq::empty(), b.email@, Seq::empty());
            assert(Seq::<char>::empty() + b.email@ + Seq::<char>::empty() =~= b.email@);
        },
        None => {
            lemma_contains_middle(Seq::empty(), b.email@, Seq::empty());
            assert(Seq::<char>::empty() + b.email@ + Seq::<char>::empty() =~= b.email@);
        },
    }
}

/// Every mailbox's address occurs in a rendered mailbox list.
proof fn lemma_list_text_holds_emails(list: Seq<Mailbox>, i: int)
    requires
        0 <= i < list.len(),
    ensures
        contains_seq(mailbox_list_text(list), list[i].email@),
{
    let texts = list.map_values(|b: Mailbox| mailbox_text(b));
    lemma_mailbox_text_holds_email(list[i]);
    assert(texts[i] == mailbox_text(list[i]));
    lemma_join_contains_part(texts, ", "@, i);
    lemma_contains_trans(join_seq(texts, ", "@), texts[i], list[i].email@);
}

/// A line of the context, and so anything inside it, occurs in the context.
proof fn lemma_line_in_context(lines: Seq<Seq<char>>, k: int, prefix: Seq<char>, body: Seq<char>, inner: Seq<char>)
    requires
        0 <= k < lines.len(),
        lines[k] == prefix + body,
        contains_seq(body, inner),
    ensures
        contains_seq(join_seq(lines, "\n"@), inner),
{
    lemma_contains_middle(prefix, body, Seq::empty());
    assert(prefix + body + Seq::<char>::empty() =~= lines[k]);
    lemma_contains_trans(lines[k], body, inner);
    lemma_join_contains_part(lines, "\n"@, k);
    lemma_contains_trans(join_seq(lines, "\n"@), lines[k], inner);
}

/// The context opens with its title, then the sender line (`From: (unknown)`
/// without a sender address; otherwise the address appears in it), then the
/// `To: ` line (`To: (none)` without recipients); every To, Cc and Bcc
/// address appears in the context, and a subject no longer than the limit
/// appears whole after `Subject: `.
pub proof fn lemma_context_lists_addresses(m: Message, max_subject: nat, max_body: nat)
    ensures
        message_context_lines(m, max_subject, max_body)[0] == "MESSAGE CONTEXT:"@,
        m.from_email is None ==> message_context_lines(m, max_subject, max_body)[1] == "From: (unknown)"@,
        m.from_email is Some ==> contains_seq(
            join_seq(message_context_lines(m, max_subject, max_body), "\n"@),
            m.from_email->0@,
        ),
        m.to@.len() == 0 ==> message_context_lines(m, max_subject, max_body)[2] == "To: (none)"@,
        forall|i: int|
            0 <= i < m.to@.len() ==> contains_seq(
                join_seq(message_context_lines(m, max_subject, max_body), "\n"@),
                #[trigger] m.to@[i].email@,
            ),
        forall|i: int|
            0 <= i < m.bcc@.len() ==> contains_seq(
                join_seq(message_context_lines(m, max_subject, max_body), "\n"@),
                #[trigger] m.bcc@[i].email@,
            ),
        m.subject is Some && 0 < m.subject->0@.len() <= max_subject ==> contains_seq(
            join_seq(message_context_lines(m, max_subject, max_body), "\n"@),
            "Subject: "@ + m.subject->0@,
        ),
{
    let lines = message_context_lines(m, max_subject, max_body);
    let rest = subject_lines(m, max_subject) + header_lines(relevant_headers(m.headers@)) + closing_lines(m, max_body);
    assert(lines =~= address_lines(m) + rest);
    let ccs = line_if(m.cc@.len() > 0, "Cc: "@ + mailbox_list_text(m.cc@));
    let bccs = line_if(m.bcc@.len() > 0, "Bcc: "@ + mailbox_list_text(m.bcc@));
    assert(lines[0] == address_lines(m)[0]);
    assert(lines[1] == "From: "@ + from_text(m.from_name, m.from_email));
    assert(lines[2] == "To: "@ + mailbox_list_text(m.to@));
    reveal_strlit("From: ");
    reveal_strlit("(unknown)");
    reveal_strlit("From: (unknown)");
    reveal_strlit("To: ");
    reveal_strlit("(none)");
    reveal_strlit("To: (none)");
    assert("From: "@ + "(unknown)"@ =~= "From: (unknown)"@);
    assert("To: "@ + "(none)"@ =~= "To: (none)"@);
    if m.from_email is Some {
        let e = m.from_email->0;
        let ft = from_text(m.from_name, m.from_email);
        match m.from_name {
            Some(n) => if !is_blank(n@) {
                lemma_contains_middle(n@ + " <"@, e@, ">"@);
            } else {
                lemma_contains_middle(Seq::empty(), e@, Seq::empty());
                assert(Seq::<char>::empty() + e@ + Seq::<char>::empty() =~= e@);
            },
            None => {
                lemma_contains_middle(Seq::empty(), e@, Seq::empty());
                assert(Seq::<char>::empty() + e@ + Seq::<char>::empty() =~= e@);
            },
        }
        lemma_line_in_context(lines, 1, "From: "@, ft, e@);
    }
    assert forall|i: int| 0 <= i < m.to@.len() implies contains_seq(join_seq(lines, "\n"@), #[trigger] m.to@[i].email@) by {
        lemma_list_text_holds_emails(m.to@, i);
        lemma_line_in_context(lines, 2, "To: "@, mailbox_list_text(m.to@), m.to@[i].email@);
    }
    assert forall|i: int| 0 <= i < m.bcc@.len() implies contains_seq(join_seq(lines, "\n"@), #[trigger] m.bcc@[i].email@) by {
        let k: int = if m.cc@.len() > 0 { 4 } else { 3 };
        assert(lines[k] == "Bcc: "@ + mailbox_list_text(m.bcc@));
        lemma_list_text_holds_emails(m.bcc@, i);
        lemma_line_in_context(lines, k, "Bcc: "@, mailbox_list_text(m.bcc@), m.bcc@[i].email@);
    }
    if m.subject is Some && 0 < m.subject->0@.len() <= max_subject {
        let s = m.subject->0@;
        let k: int = (address_lines(m).len()) as int;
        assert(truncate_spec(s, max_subject) == s);
        assert(lines[k] == "Subject: "@ + s);
        let full = "Subject: "@ + s;
        lemma_contains_middle(Seq::empty(), full, Seq::empty());
        assert(Seq::<char>::empty() + full + Seq::<char>::empty() =~= full);
        lemma_line_in_context(lines, k, Seq::empty(), full, full);
    }
}

/// The message context lists the copy recipients: with any Cc recipient, its
/// fourth line is `Cc: ` followed by the Cc mailboxes (as `Name <address>` or
/// the bare address) joined by `, `, and every Cc address appears in the
/// context.
pub proof fn lemma_context_lists_cc(m: Message, max_subject: nat, max_body: nat)
    ensures
        m.cc@.len() > 0 ==> message_context_lines(m, max_subject, max_body)[3] == "Cc: "@ + join_seq(
            m.cc@.map_values(|b: Mailbox| mailbox_text(b)),
            ", "@,
        ),
        forall|i: int|
            0 <= i < m.cc@.len() ==> contains_seq(
                join_seq(message_context_lines(m, max_subject, max_body), "\n"@),
                #[trigger] m.cc@[i].email@,
            ),
{
    let lines = message_context_lines(m, max_subject, max_body);
    let rest = subject_lines(m, max_subject) + header_lines(relevant_headers(m.headers@)) + closing_lines(m, max_body);
    assert(lines =~= address_lines(m) + rest);
    if m.cc@.len() > 0 {
        let texts = m.cc@.map_values(|b: Mailbox| mailbox_text(b));
        let cc_line = "Cc: "@ + join_seq(texts, ", "@);
        assert(address_lines(m)[3] == cc_line);
        assert(lines[3] == cc_line);
        assert forall|i: int| 0 <= i < m.cc@.len() implies contains_seq(
            join_seq(lines, "\n"@),
            #[trigger] m.cc@[i].email@,
        ) by {
            lemma_mailbox_text_holds_email(m.cc@[i]);
            assert(texts[i] == mailbox_text(m.cc@[i]));
            lemma_join_contains_part(texts, ", "@, i);
            lemma_contains_middle("Cc: "@, join_seq(texts, ", "@), Seq::empty());
            assert("Cc: "@ + join_seq(texts, ", "@) + Seq::<char>::empty() =~= cc_line);
            lemma_contains_trans(cc_line, join_seq(texts, ", "@), texts[i]);
            lemma_contains_trans(cc_line, texts[i], m.cc@[i].email@);
            lemma_join_contains_part(lines, "\n"@, 3);
            lemma_contains_trans(join_seq(lines, "\n"@), cc_line, m.cc@[i].email@);
        }
    }
}

fn push_line(lines: &mut Vec<Vec<char>>, line: Vec<char>)
    ensures
        final(lines)@.map_values(|p: Vec<char>| p@) == old(lines)@.map_values(|p: Vec<char>| p@).push(
            line@,
        ),
{
    lines.push(line);
    assert(lines@.map_values(|p: Vec<char>| p@) =~= old(lines)@.map_values(|p: Vec<char>| p@).push(
        line@,
    ));
}

fn prefixed(prefix: &str, rest: &Vec<char>) -> (r: Vec<char>)
    ensures
        r@ == prefix@ + rest@,
{
    let mut v = chars_of(prefix);
    push_all(&mut v, rest);
    v
}

fn header_line(h: &Header) -> (r: Vec<char>)
    ensures
        r@ == "- "@ + h.name@ + ": "@ + h.value@,
{
    let mut v = chars_of("- ");
    push_str(&mut v, h.name.as_str());
    push_str(&mut v, ": ");
    push_str(&mut v, h.value.as_str());
    v
}

fn append_lines(lines: &mut Vec<Vec<char>>, extra: Vec<Vec<char>>)
    ensures
        final(lines)@.map_values(|p: Vec<char>| p@) == old(lines)@.map_values(|p: Vec<char>| p@) + extra@.map_values(
            |p: Vec<char>| p@,
        ),
{
    let mut extra = extra;
    let ghost old_lines = lines@;
    let ghost old_extra = extra@;
    lines.append(&mut extra);
    assert(lines@ =~= old_lines + old_extra);
    assert((old_lines + old_extra).map_values(|p: Vec<char>| p@) =~= old_lines.map_values(
        |p: Vec<char>| p@,
    ) + old_extra.map_values(|p: Vec<char>| p@));
}

fn build_address_lines(message: &Message) -> (r: Vec<Vec<char>>)
    ensures
        r@.map_values(|p: Vec<char>| p@) == address_lines(*message),
{
    let ghost m = *message;
    let mut lines: Vec<Vec<char>> = Vec::new();
    push_line(&mut lines, chars_of("MESSAGE CONTEXT:"));
    push_line(&mut lines, prefixed("From: ", &format_from(&message.from_name, &message.from_email)));
    push_line(&mut lines, prefixed("To: ", &format_mailbox_list(&message.to)));
    let ghost base = lines@.map_values(|p: Vec<char>| p@);
    assert(base =~= seq![
        "MESSAGE CONTEXT:"@,
        "From: "@ + from_text(m.from_name, m.from_email),
        "To: "@ + mailbox_list_text(m.to@),
    ]);
    if message.cc.len() > 0 {
        push_line(&mut lines, prefixed("Cc: ", &format_mailbox_list(&message.cc)));
    }
    let ghost a = base + line_if(m.cc@.len() > 0, "Cc: "@ + mailbox_list_text(m.cc@));
    assert(lines@.map_values(|p: Vec<char>| p@) =~= a);
    if message.bcc.len() > 0 {
        push_line(&mut lines, prefixed("Bcc: ", &format_mailbox_list(&message.bcc)));
    }
    assert(lines@.map_values(|p: Vec<char>| p@) =~= address_lines(m));
    lines
}

fn build_subject_lines(message: &Message, max_subject: usize) -> (r: Vec<Vec<char>>)
    ensures
        r@.map_values(|p: Vec<char>| p@) == subject_lines(*message, max_subject as nat),
{
    let ghost m = *message;
    let mut lines: Vec<Vec<char>> = Vec::new();
    match &message.subject {
        Some(subject) => {
            let t = truncate_text(subject.as_str(), max_subject);
            push_line(&mut lines, prefixed("Subject: ", &chars_of(t.as_str())));
        },
        None => {},
    }
    let ghost c = match m.subject {
        Some(s) => seq!["Subject: "@ + truncate_spec(s@, max_subject as nat)],
        None => Seq::<Seq<char>>::empty(),
    };
    assert(lines@.map_values(|p: Vec<char>| p@) =~= c);
    match &message.snippet {
        Some(snippet) => {
            push_line(&mut lines, prefixed("Snippet: ", &chars_of(snippet.as_str())));
        },
        None => {},
    }
    assert(lines@.map_values(|p: Vec<char>| p@) =~= subject_lines(m, max_subject as nat));
    lines
}

fn build_header_lines(headers: &Vec<Header>) -> (r: Vec<Vec<char>>)
    ensures
        r@.map_values(|p: Vec<char>| p@) == header_lines(relevant_headers(headers@)),
{
    let relevant = filter_relevant_headers(headers);
    let ghost hs = relevant_headers(headers@);
    let mut lines: Vec<Vec<char>> = Vec::new();
    if relevant.len() > 0 {
        push_line(&mut lines, chars_of("Headers:"));
        let ghost before = lines@.map_values(|p: Vec<char>| p@);
        let mut i: usize = 0;
        while i < relevant.len()
            invariant
                i <= relevant.len(),
                relevant@ == hs,
                lines@.map_values(|p: Vec<char>| p@) == before + hs.take(i as int).map_values(
                    |h: Header| "- "@ + h.name@ + ": "@ + h.value@,
                ),
            decreases relevant.len() - i,
        {
            push_line(&mut lines, header_line(&relevant[i]));
            assert(hs.take(i + 1).map_values(|h: Header| "- "@ + h.name@ + ": "@ + h.value@)
                =~= hs.take(i as int).map_values(|h: Header| "- "@ + h.name@ + ": "@ + h.value@).push(
                "- "@ + hs[i as int].name@ + ": "@ + hs[i as int].value@,
            ));
            i = i + 1;
        }
        assert(hs.take(hs.len() as int) =~= hs);
    }
    assert(lines@.map_values(|p: Vec<char>| p@) =~= header_lines(hs));
    lines
}

fn build_closing_lines(message: &Message, max_body: usize) -> (r: Vec<Vec<char>>)
    ensures
        r@.map_values(|p: Vec<char>| p@) == closing_lines(*message, max_body as nat),
{
    let ghost m = *message;
    let mut lines: Vec<Vec<char>> = Vec::new();
    let labels = match labels_json(&message.labels) {
        Some(t) => chars_of(t.as_str()),
        None => chars_of("[]"),
    };
    push_line(&mut lines, prefixed("Labels: ", &labels));
    match get_body_text(message, max_body) {
        Some(body) => {
            push_line(&mut lines, chars_of("Body:"));
            push_line(&mut lines, chars_of(body.as_str()));
        },
        None => {},
    }
    assert(lines@.map_values(|p: Vec<char>| p@) =~= closing_lines(m, max_body as nat));
    lines
}

/// Builds the lines of the message context, in order.
fn message_context(message: &Message, max_subject: usize, max_body: usize) -> (r: Vec<Vec<char>>)
    ensures
        r@.map_values(|p: Vec<char>| p@) == message_context_lines(
            *message,
            max_subject as nat,
            max_body as nat,
        ),
{
    let mut lines = build_address_lines(message);
    append_lines(&mut lines, build_subject_lines(message, max_subject));
    append_lines(&mut lines, build_header_lines(&message.headers));
    append_lines(&mut lines, build_closing_lines(message, max_body));
    lines
}

// ---------------------------------------------------------------------------
// Fixed texts
// ---------------------------------------------------------------------------

/// The name of the decision tool that the model should call.
pub const DECISION_TOOL_NAME: &'static str = "record_decision";

/// The lines of the system message.
pub open spec fn system_lines() -> Seq<Seq<char>> {
    seq![
        "You are the email classification and action engine."@,
        "You MUST call the `record_decision` tool to provide your classification decision."@,
        "You MUST follow the DIRECTIONS section strictly."@,
        "You MUST NOT hallucinate."@,
        "If uncertain, choose a safe and reversible action."@,
    ]
}

fn lines_of(items: &Vec<&str>) -> (r: Vec<Vec<char>>)
    ensures
        r@.map_values(|p: Vec<char>| p@) == items@.map_values(|s: &str| s@),
{
    let mut r: Vec<Vec<char>> = Vec::new();
    let mut i: usize = 0;
    while i < items.len()
        invariant
            i <= items.len(),
            r@.len() == i,
            forall|j: int| 0 <= j < i ==> (#[trigger] r@[j])@ == items@[j]@,
        decreases items.len() - i,
    {
        r.push(chars_of(items[i]));
        i = i + 1;
    }
    assert(r@.map_values(|p: Vec<char>| p@) =~= items@.map_values(|s: &str| s@));
    r
}

/// The system message: the engine's standing instructions.
pub fn build_system_message() -> (r: ChatMessage)
    ensures
        r.role == ChatRole::System,
        r.content@ == join_seq(system_lines(), "\n"@),
{
    let items = vec![
        "You are the email classification and action engine.",
        "You MUST call the `record_decision` tool to provide your classification decision.",
        "You MUST follow the DIRECTIONS section strictly.",
        "You MUST NOT hallucinate.",
        "If uncertain, choose a safe and reversible action.",
    ];
    let lines = lines_of(&items);
    assert(items@.map_values(|s: &str| s@) =~= system_lines());
    let content = join_vecs(&lines, &chars_of("\n"));
    ChatMessage { role: ChatRole::System, content: string_from_chars(&content) }
}

/// The actions offered to the model, in the order the directive lists them.
pub open spec fn directive_actions() -> Seq<ActionType> {
    seq![
        ActionType::ApplyLabel,
        ActionType::MarkRead,
        ActionType::MarkUnread,
        ActionType::Archive,
        ActionType::Delete,
        ActionType::Move,
        ActionType::Star,
        ActionType::Unstar,
        ActionType::Forward,
        ActionType::AutoReply,
        ActionType::CreateTask,
        ActionType::Snooze,
        ActionType::AddNote,
        ActionType::Escalate,
        ActionType::NoAction,
    ]
}

/// The offered action names separated by `, `.
pub open spec fn actions_list_text() -> Seq<char> {
    join_seq(directive_actions().map_values(|a: ActionType| action_name(a)), ", "@)
}

/// The lines of the task directive.
pub open spec fn task_directive_lines() -> Seq<Seq<char>> {
    seq![
        "TASK:"@,
        "Analyze this email and call the `record_decision` tool with your classification decision."@,
        ""@,
        "Valid action types:"@,
        actions_list_text(),
        ""@,
        "Requirements:"@,
        "- Confidence MUST be between 0.0 and 1.0 inclusive."@,
        "- If the action is destructive (e.g., delete) and confidence is low, set needs_approval to true."@,
        "- Ensure undo_hint.inverse_action can reverse the primary decision."@,
        "- You MUST call the record_decision tool - do not return plain text."@,
    ]
}

/// The task directive closing the user message. Every offered action's name
/// appears in it.
pub fn build_task_directive() -> (r: String)
    ensures
        r@ == join_seq(task_directive_lines(), "\n"@),
        forall|k: int|
            0 <= k < directive_actions().len() ==> contains_seq(
                r@,
                action_name(#[trigger] directive_actions()[k]),
            ),
{
    let actions = vec![
        ActionType::ApplyLabel,
        ActionType::MarkRead,
        ActionType::MarkUnread,
        ActionType::Archive,
        ActionType::Delete,
        ActionType::Move,
        ActionType::Star,
        ActionType::Unstar,
        ActionType::Forward,
        ActionType::AutoReply,
        ActionType::CreateTask,
        ActionType::Snooze,
        ActionType::AddNote,
        ActionType::Escalate,
        ActionType::NoAction,
    ];
    assert(actions@ =~= directive_actions());
    let mut names: Vec<Vec<char>> = Vec::new();
    let mut i: usize = 0;
    while i < actions.len()
        invariant
            i <= actions.len(),
            names@.len() == i,
            forall|j: int| 0 <= j < i ==> (#[trigger] names@[j])@ == action_name(actions@[j]),
        decreases actions.len() - i,
    {
        names.push(chars_of(actions[i].as_str()));
        i = i + 1;
    }
    assert(names@.map_values(|p: Vec<char>| p@) =~= directive_actions().map_values(
        |a: ActionType| action_name(a),
    ));
    let list = join_vecs(&names, &chars_of(", "));
    let mut lines = lines_of(
        &vec![
            "TASK:",
            "Analyze this email and call the `record_decision` tool with your classification decision.",
            "",
            "Valid action types:",
        ],
    );
    push_line(&mut lines, list);
    let tail = vec![
        "",
        "Requirements:",
        "- Confidence MUST be between 0.0 and 1.0 inclusive.",
        "- If the action is destructive (e.g., delete) and confidence is low, set needs_approval to true.",
        "- Ensure undo_hint.inverse_action can reverse the primary decision.",
        "- You MUST call the record_decision tool - do not return plain text.",
    ];
    assert(tail@.map_values(|s: &str| s@) =~= task_directive_lines().skip(5));
    assert(lines@.map_values(|p: Vec<char>| p@) =~= task_directive_lines().take(5));
    let mut k: usize = 0;
    while k < tail.len()
        invariant
            k <= tail.len(),
            tail@.len() == 6,
            lines@.map_values(|p: Vec<char>| p@) == task_directive_lines().take(5 + k),
            tail@.map_values(|s: &str| s@) == task_directive_lines().skip(5),
        decreases tail.len() - k,
    {
        push_line(&mut lines, chars_of(tail[k]));
        proof {
            let tl = task_directive_lines();
            assert(tail@.map_values(|s: &str| s@)[k as int] == tail@[k as int]@);
            assert(tl.take(5 + k + 1) =~= tl.take(5 + k).push(tl[5 + k]));
        }
        k = k + 1;
    }
    let joined = join_vecs(&lines, &chars_of("\n"));
    proof {
        let tl = task_directive_lines();
        assert(tl.take(11) =~= tl);
        let names_seq = directive_actions().map_values(|a: ActionType| action_name(a));
        assert forall|k: int| 0 <= k < directive_actions().len() implies contains_seq(
            joined@,
            action_name(#[trigger] directive_actions()[k]),
        ) by {
            lemma_join_contains_part(names_seq, ", "@, k);
            lemma_join_contains_part(tl, "\n"@, 4);
            let i = choose|i: int| occurs_at(joined@, tl[4], i);
            let j = choose|j: int| occurs_at(tl[4], names_seq[k], j);
            lemma_occurs_at_trans(joined@, tl[4], names_seq[k], i, j);
        }
    }
    string_from_chars(&joined)
}

// ---------------------------------------------------------------------------
// The builder
// ---------------------------------------------------------------------------

/// Summary of the conversation a message belongs to (reserved; it holds
/// nothing yet).
#[derive(Debug, Clone, Copy, PartialEq, Eq, Default)]
pub struct ThreadContext {}

/// Length limits of a prompt, where the caller wants other than the defaults.
#[derive(Debug, Clone, Copy)]
pub struct PromptBuilderConfig {
    pub max_body_length: Option<usize>,
    pub max_subject_length: Option<usize>,
}

impl Default for PromptBuilderConfig {
    fn default() -> (r: Self)
        ensures
            r.max_body_length is None,
            r.max_subject_length is None,
    {
        PromptBuilderConfig { max_body_length: None, max_subject_length: None }
    }
}

/// Body length used when none is configured.
pub const DEFAULT_MAX_BODY_LENGTH: usize = 8000;

/// Subject length used when none is configured.
pub const DEFAULT_MAX_SUBJECT_LENGTH: usize = 500;

/// Builds the chat for one message, cutting the subject and the body to
/// fixed lengths.
#[derive(Debug, Clone, Copy)]
pub struct PromptBuilder {
    max_body_length: usize,
    max_subject_length: usize,
}

/// The sections of the user message: directions and rules when they are not
/// empty, then the message context and the task directive.
pub open spec fn user_sections(
    directions: Seq<char>,
    rules: Seq<char>,
    context: Seq<char>,
) -> Seq<Seq<char>> {
    line_if(directions.len() > 0, directions) + line_if(rules.len() > 0, rules) + seq![
        context,
        join_seq(task_directive_lines(), "\n"@),
    ]
}

/// The user message carries everything the model decides on: the message
/// context and the task directive always, the directions section and the
/// LLM rules section whenever they are not empty, in that order, each
/// occurring in the joined message; the context comes right before the
/// directive, which closes the message.
pub proof fn lemma_user_message_carries_sections(directions: Seq<char>, rules: Seq<char>, context: Seq<char>)
    ensures
        ({
            let secs = user_sections(directions, rules, context);
            let text = join_seq(secs, "\n\n"@);
            &&& secs.last() == join_seq(task_directive_lines(), "\n"@)
            &&& secs[secs.len() - 2] == context
            &&& contains_seq(text, context)
            &&& contains_seq(text, join_seq(task_directive_lines(), "\n"@))
            &&& (directions.len() > 0 ==> secs[0] == directions && contains_seq(text, directions))
            &&& (rules.len() > 0 ==> contains_seq(text, rules))
            &&& (directions.len() == 0 && rules.len() == 0 ==> secs.len() == 2)
        }),
{
    let secs = user_sections(directions, rules, context);
    let n = secs.len() as int;
    lemma_join_contains_part(secs, "\n\n"@, n - 1);
    lemma_join_contains_part(secs, "\n\n"@, n - 2);
    if directions.len() > 0 {
        lemma_join_contains_part(secs, "\n\n"@, 0);
    }
    if rules.len() > 0 {
        let k: int = if directions.len() > 0 { 1 } else { 0 };
        assert(secs[k] == rules);
        lemma_join_contains_part(secs, "\n\n"@, k);
    }
}

impl PromptBuilder {
    /// The longest body, in characters, shown to the model.
    pub closed spec fn body_limit(&self) -> nat {
        self.max_body_length as nat
    }

    /// The longest subject, in characters, shown to the model.
    pub closed spec fn subject_limit(&self) -> nat {
        self.max_subject_length as nat
    }

    /// A builder with the default limits (8000 body and 500 subject characters).
    pub fn new() -> (r: Self)
        ensures
            r.body_limit() == DEFAULT_MAX_BODY_LENGTH,
            r.subject_limit() == DEFAULT_MAX_SUBJECT_LENGTH,
    {
        PromptBuilder {
            max_body_length: DEFAULT_MAX_BODY_LENGTH,
            max_subject_length: DEFAULT_MAX_SUBJECT_LENGTH,
        }
    }

    /// A builder with the configured limits, defaults for those not set.
    pub fn with_config(config: PromptBuilderConfig) -> (r: Self)
        ensures
            r.body_limit() == match config.max_body_length {
                Some(n) => n,
                None => DEFAULT_MAX_BODY_LENGTH,
            },
            r.subject_limit() == match config.max_subject_length {
                Some(n) => n,
                None => DEFAULT_MAX_SUBJECT_LENGTH,
            },
    {
        PromptBuilder {
            max_body_length: match config.max_body_length {
                Some(n) => n,
                None => DEFAULT_MAX_BODY_LENGTH,
            },
            max_subject_length: match config.max_subject_length {
                Some(n) => n,
                None => DEFAULT_MAX_SUBJECT_LENGTH,
            },
        }
    }

    /// The system message.
    pub fn build_system_message(&self) -> (r: ChatMessage)
        ensures
            r.role == ChatRole::System,
            r.content@ == join_seq(system_lines(), "\n"@),
    {
        build_system_message()
    }

    /// The message context: one line per fact about the message.
    pub fn build_message_context(&self, message: &Message, thread_context: Option<&ThreadContext>) -> (r:
        String)
        ensures
            r@ == join_seq(
                message_context_lines(*message, self.subject_limit(), self.body_limit()),
                "\n"@,
            ),
    {
        let lines = message_context(message, self.max_subject_length, self.max_body_length);
        let joined = join_vecs(&lines, &chars_of("\n"));
        string_from_chars(&joined)
    }

    /// The chat for one message: the system message, then one user message
    /// joining (with blank lines) the non-empty directions and rules sections,
    /// the message context and the task directive.
    pub fn build(
        &self,
        message: &Message,
        directions: &Vec<Direction>,
        llm_rules: &Vec<LlmRule>,
        thread_context: Option<&ThreadContext>,
    ) -> (r: Vec<ChatMessage>)
        ensures
            r@.len() == 2,
            r@[0].role == ChatRole::System,
            r@[0].content@ == join_seq(system_lines(), "\n"@),
            r@[1].role == ChatRole::User,
            r@[1].content@ == join_seq(
                user_sections(
                    directions_text(directions@),
                    llm_rules_text(llm_rules@),
                    join_seq(
                        message_context_lines(*message, self.subject_limit(), self.body_limit()),
                        "\n"@,
                    ),
                ),
                "\n\n"@,
            ),
    {
        let system = self.build_system_message();
        let mut sections: Vec<Vec<char>> = Vec::new();
        let d = build_directions_section(directions);
        let dv = chars_of(d.as_str());
        if dv.len() > 0 {
            push_line(&mut sections, dv);
        }
        let rs = build_llm_rules_section(llm_rules);
        let rv = chars_of(rs.as_str());
        if rv.len() > 0 {
            push_line(&mut sections, rv);
        }
        let ctx = self.build_message_context(message, thread_context);
        push_line(&mut sections, chars_of(ctx.as_str()));
        let task = build_task_directive();
        push_line(&mut sections, chars_of(task.as_str()));
        assert(sections@.map_values(|p: Vec<char>| p@) =~= user_sections(
            directions_text(directions@),
            llm_rules_text(llm_rules@),
            ctx@,
        ));
        let joined = join_vecs(&sections, &chars_of("\n\n"));
        let user = ChatMessage { role: ChatRole::User, content: string_from_chars(&joined) };
        let mut out: Vec<ChatMessage> = Vec::new();
        out.push(system);
        out.push(user);
        out
    }
}

} // verus!
