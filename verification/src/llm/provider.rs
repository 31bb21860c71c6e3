//! Decisions the model client makes around a provider call: the model name it
//! asks for, the token counts it records, and how a failed HTTP exchange is
//! classified (including the retry delay the provider asked for).

use vstd::prelude::*;

use crate::llm::error::{LLMError, RateLimitInfo};
use crate::llm::types::{CompletionResponse, ToolCallResult};
use crate::text::{
    chars_of, lowercase, owned, parse_i64_spec, parse_i64_vec, parse_u64_spec, parse_u64_vec, push_str,
    string_from_chars, to_lowercase, trim_seq, trim_vec,
};

verus! {

// ---------------------------------------------------------------------------
// Outside calls (chrono)
// ---------------------------------------------------------------------------

/// The instant an RFC 2822 date denotes, in milliseconds since the Unix epoch,
/// or `None` when the text is not such a date
/// (`chrono::DateTime::parse_from_rfc2822`, then `timestamp_millis`).
/// It depends on the text alone.
pub uninterp spec fn rfc2822_instant_ms(s: Seq<char>) -> Option<i64>;

/// Parses an RFC 2822 date (`chrono::DateTime::parse_from_rfc2822`) and gives
/// its instant in epoch milliseconds (`DateTime::timestamp_millis`). The
/// contract only names the result; what chrono accepts is not restated here.
#[verifier::external_body]
fn parse_rfc2822_ms(s: &str) -> (r: Option<i64>)
    ensures
        r == rfc2822_instant_ms(s@),
{
    match chrono::DateTime::parse_from_rfc2822(s) {
        Ok(dt) => Some(dt.timestamp_millis()),
        Err(_) => None,
    }
}

/// The current time in epoch milliseconds (`chrono::Utc::now`, then
/// `timestamp_millis`). Nothing is claimed of the value: it is the clock.
#[verifier::external_body]
fn now_epoch_ms() -> (r: i64) {
    chrono::Utc::now().timestamp_millis()
}

/// The current time in epoch seconds (`chrono::Utc::now`, then `timestamp`).
/// Nothing is claimed of the value: it is the clock.
#[verifier::external_body]
fn now_epoch_secs() -> (r: i64) {
    chrono::Utc::now().timestamp()
}

// ---------------------------------------------------------------------------
// Model name and usage
// ---------------------------------------------------------------------------

/// `provider::model` with the provider lower-cased, or the bare model when no
/// provider is configured.
pub open spec fn namespaced_model_spec(provider: Seq<char>, model: Seq<char>) -> Seq<char> {
    if provider.len() == 0 {
        model
    } else {
        lowercase(provider) + "::"@ + model
    }
}

/// The model identifier handed to the provider library.
pub fn namespaced_model(provider: &str, model: &str) -> (r: String)
    ensures
        r@ == namespaced_model_spec(provider@, model@),
{
    if provider.unicode_len() == 0 {
        owned(model)
    } else {
        let lower = to_lowercase(provider);
        let mut v = chars_of(lower.as_str());
        push_str(&mut v, "::");
        push_str(&mut v, model);
        string_from_chars(&v)
    }
}

/// A reported token count, missing or negative counts taken as zero.
pub open spec fn token_count(t: Option<i32>) -> u32 {
    match t {
        Some(v) => if v > 0 { v as u32 } else { 0 },
        None => 0,
    }
}

/// Input and output token counts of a completion, from the provider's usage
/// report.
pub fn usage_tokens(prompt_tokens: Option<i32>, completion_tokens: Option<i32>) -> (r: (u32, u32))
    ensures
        r == (token_count(prompt_tokens), token_count(completion_tokens)),
{
    let input: u32 = match prompt_tokens {
        Some(v) => if v > 0 { v as u32 } else { 0 },
        None => 0,
    };
    let output: u32 = match completion_tokens {
        Some(v) => if v > 0 { v as u32 } else { 0 },
        None => 0,
    };
    (input, output)
}

/// The completion a successful provider reply gives: its first text (empty
/// when it has none), the model the provider reports, the token counts of its
/// usage report, the measured latency and the tool calls it asked for.
pub fn completion_from_reply(
    first_text: Option<String>,
    provider_model: String,
    prompt_tokens: Option<i32>,
    completion_tokens: Option<i32>,
    latency_ms: u64,
    tool_calls: Vec<ToolCallResult>,
) -> (r: CompletionResponse)
    ensures
        r.content@ == match first_text {
            Some(t) => t@,
            None => Seq::<char>::empty(),
        },
        r.model == provider_model,
        r.input_tokens == token_count(prompt_tokens),
        r.output_tokens == token_count(completion_tokens),
        r.latency_ms == latency_ms,
        r.tool_calls == tool_calls,
{
    let (input_tokens, output_tokens) = usage_tokens(prompt_tokens, completion_tokens);
    let content = match first_text {
        Some(t) => t,
        None => String::new(),
    };
    CompletionResponse { content, model: provider_model, input_tokens, output_tokens, latency_ms, tool_calls }
}

// ---------------------------------------------------------------------------
// Failed exchanges
// ---------------------------------------------------------------------------

/// The payload text of an error variant that carries one.
pub open spec fn error_payload(e: LLMError) -> Option<Seq<char>> {
    match e {
        LLMError::InvalidRequest(s) => Some(s@),
        LLMError::ServerError(s) => Some(s@),
        LLMError::ParseError(s) => Some(s@),
        LLMError::ProviderError(s) => Some(s@),
        _ => None,
    }
}

/// Classifies a response that came back with a failure status.
pub fn map_failed_status(status: u16, status_text: String, retry_after_ms: Option<u64>) -> (r:
    LLMError)
    ensures
        status == 429 || status == 403 ==> r == LLMError::RateLimited(
            RateLimitInfo { retry_after_ms },
        ),
        status == 401 ==> r == LLMError::AuthenticationFailed,
        status != 429 && status != 403 && status != 401 && 400 <= status <= 499 ==> r
            is InvalidRequest && error_payload(r) == Some(status_text@),
        500 <= status <= 599 ==> r is ServerError && error_payload(r) == Some(status_text@),
        !(400 <= status <= 599) ==> r is ProviderError && error_payload(r) == Some(status_text@),
{
    if status == 429 || status == 403 {
        LLMError::RateLimited(RateLimitInfo::new(retry_after_ms))
    } else if status == 401 {
        LLMError::AuthenticationFailed
    } else if 400 <= status && status <= 499 {
        LLMError::InvalidRequest(status_text)
    } else if 500 <= status && status <= 599 {
        LLMError::ServerError(status_text)
    } else {
        LLMError::ProviderError(status_text)
    }
}

/// Classifies a transport failure: a timeout, or anything else with its text.
pub fn map_transport_error(is_timeout: bool, text: String) -> (r: LLMError)
    ensures
        is_timeout ==> r == LLMError::Timeout,
        !is_timeout ==> r is ProviderError && error_payload(r) == Some(text@),
{
    if is_timeout {
        LLMError::Timeout
    } else {
        LLMError::ProviderError(text)
    }
}

// ---------------------------------------------------------------------------
// Retry delays
// ---------------------------------------------------------------------------

/// Seconds to milliseconds, saturating at `u64::MAX`.
pub open spec fn saturating_secs_to_ms(secs: u64) -> u64 {
    if secs * 1000 > u64::MAX {
        u64::MAX
    } else {
        (secs * 1000) as u64
    }
}

/// The delay a `Retry-After` value asks for at time `now_ms`: a number of
/// seconds, or an HTTP date that still lies in the future.
pub open spec fn retry_after_spec(raw: Seq<char>, now_ms: i64) -> Option<u64> {
    let t = trim_seq(raw);
    match parse_u64_spec(t) {
        Some(secs) => Some(saturating_secs_to_ms(secs)),
        None => match rfc2822_instant_ms(t) {
            Some(at) => if at - now_ms > 0 {
                Some((at - now_ms) as u64)
            } else {
                None
            },
            None => None,
        },
    }
}

/// The delay an `x-ratelimit-reset` value (an epoch second) asks for at
/// `now_secs`, in milliseconds capped at `i64::MAX`, when it lies ahead.
pub open spec fn epoch_reset_spec(raw: Seq<char>, now_secs: i64) -> Option<u64> {
    match parse_i64_spec(trim_seq(raw)) {
        Some(reset) => if reset - now_secs > 0 {
            let ms = (reset - now_secs) * 1000;
            Some(if ms > i64::MAX { i64::MAX as u64 } else { ms as u64 })
        } else {
            None
        },
        None => None,
    }
}

/// The retry delay from a response's headers: `Retry-After` when it yields
/// one, else `x-ratelimit-reset`.
pub open spec fn retry_after_headers_spec(
    retry_after: Option<Seq<char>>,
    ratelimit_reset: Option<Seq<char>>,
    now_ms: i64,
    now_secs: i64,
) -> Option<u64> {
    let first = match retry_after {
        Some(v) => retry_after_spec(v, now_ms),
        None => None,
    };
    if first is Some {
        first
    } else {
        match ratelimit_reset {
            Some(v) => epoch_reset_spec(v, now_secs),
            None => None,
        }
    }
}

/// The characters of an optional string slice.
pub open spec fn opt_str_view(s: Option<&str>) -> Option<Seq<char>> {
    match s {
        Some(v) => Some(v@),
        None => None,
    }
}

/// Retry delays: a `Retry-After` count of seconds is that many thousand
/// milliseconds (saturating), whatever the time; an HTTP-date gives the
/// milliseconds still to wait, and a date now or past gives none. An
/// `x-ratelimit-reset` epoch second ahead of now gives the seconds left in
/// milliseconds, and one now or past gives none. From headers, a usable
/// `Retry-After` wins over `x-ratelimit-reset`, which is used only otherwise.
pub proof fn lemma_retry_delays(raw: Seq<char>, other: Seq<char>, now_ms: i64, now_secs: i64)
    ensures
        parse_u64_spec(trim_seq(raw)) matches Some(secs) ==> retry_after_spec(raw, now_ms) == Some(
            if secs * 1000 > u64::MAX {
                u64::MAX
            } else {
                (secs * 1000) as u64
            },
        ),
        parse_u64_spec(trim_seq(raw)) is None ==> (retry_after_spec(raw, now_ms) matches Some(d) ==> d > 0 && (
        rfc2822_instant_ms(trim_seq(raw)) matches Some(at) && at - now_ms == d)),
        parse_i64_spec(trim_seq(raw)) matches Some(reset) ==> (reset <= now_secs <==> epoch_reset_spec(raw, now_secs)
            is None),
        parse_i64_spec(trim_seq(raw)) matches Some(reset) ==> (now_secs < reset && (reset - now_secs) * 1000
            <= i64::MAX ==> epoch_reset_spec(raw, now_secs) == Some(((reset - now_secs) * 1000) as u64)),
        retry_after_spec(raw, now_ms) is Some ==> retry_after_headers_spec(Some(raw), Some(other), now_ms, now_secs)
            == retry_after_spec(raw, now_ms),
        retry_after_spec(raw, now_ms) is None ==> retry_after_headers_spec(Some(raw), Some(other), now_ms, now_secs)
            == epoch_reset_spec(other, now_secs),
        retry_after_headers_spec(None, Some(other), now_ms, now_secs) == epoch_reset_spec(other, now_secs),
        retry_after_headers_spec(None, None, now_ms, now_secs) is None,
{
}

/// The model identifier is the bare model without a provider; otherwise it
/// is the lower-cased provider, `::`, then the model as given.
pub proof fn lemma_namespaced_model(provider: Seq<char>, model: Seq<char>)
    ensures
        provider.len() == 0 ==> namespaced_model_spec(provider, model) == model,
        provider.len() > 0 ==> namespaced_model_spec(provider, model) == lowercase(provider) + seq![':', ':'] + model,
{
    reveal_strlit("::");
    assert("::"@ =~= seq![':', ':']);
}

/// Reads a `Retry-After` value against a given current time.
pub fn parse_retry_after_at(raw: &str, now_ms: i64) -> (r: Option<u64>)
    ensures
        r == retry_after_spec(raw@, now_ms),
{
    let v = chars_of(raw);
    let t = trim_vec(&v);
    match parse_u64_vec(&t) {
        Some(secs) => {
            let ms: u64 = match secs.checked_mul(1000) {
                Some(m) => m,
                None => u64::MAX,
            };
            Some(ms)
        },
        None => {
            let ts = string_from_chars(&t);
            match parse_rfc2822_ms(ts.as_str()) {
                Some(at) => {
                    let delta: i128 = at as i128 - now_ms as i128;
                    if delta > 0 {
                        Some(delta as u64)
                    } else {
                        None
                    }
                },
                None => None,
            }
        },
    }
}

/// Reads a `Retry-After` value against the clock.
pub fn parse_retry_after(raw: &str) -> (r: Option<u64>)
    ensures
        exists|now_ms: i64| r == #[trigger] retry_after_spec(raw@, now_ms),
{
    let now = now_epoch_ms();
    let r = parse_retry_after_at(raw, now);
    assert(r == retry_after_spec(raw@, now));
    r
}

/// Reads an `x-ratelimit-reset` value against a given current time.
pub fn parse_epoch_reset_at(raw: &str, now_secs: i64) -> (r: Option<u64>)
    ensures
        r == epoch_reset_spec(raw@, now_secs),
{
    let v = chars_of(raw);
    let t = trim_vec(&v);
    match parse_i64_vec(&t) {
        Some(reset) => {
            let delta: i128 = reset as i128 - now_secs as i128;
            if delta > 0 {
                let ms: i128 = delta * 1000;
                if ms > 0x7fff_ffff_ffff_ffff {
                    Some(0x7fff_ffff_ffff_ffffu64)
                } else {
                    Some(ms as u64)
                }
            } else {
                None
            }
        },
        None => None,
    }
}

/// Reads an `x-ratelimit-reset` value against the clock.
pub fn parse_epoch_reset(raw: &str) -> (r: Option<u64>)
    ensures
        exists|now_secs: i64| r == #[trigger] epoch_reset_spec(raw@, now_secs),
{
    let now = now_epoch_secs();
    let r = parse_epoch_reset_at(raw, now);
    assert(r == epoch_reset_spec(raw@, now));
    r
}

/// The retry delay from a response's `Retry-After` and `x-ratelimit-reset`
/// header values (each present only when it is valid visible ASCII), at the
/// given current time.
pub fn retry_after_ms_from_headers_at(
    retry_after: Option<&str>,
    ratelimit_reset: Option<&str>,
    now_ms: i64,
    now_secs: i64,
) -> (r: Option<u64>)
    ensures
        r == retry_after_headers_spec(
            opt_str_view(retry_after),
            opt_str_view(ratelimit_reset),
            now_ms,
            now_secs,
        ),
{
    match retry_after {
        Some(v) => {
            match parse_retry_after_at(v, now_ms) {
                Some(ms) => {
                    return Some(ms);
                },
                None => {},
            }
        },
        None => {},
    }
    match ratelimit_reset {
        Some(v) => parse_epoch_reset_at(v, now_secs),
        None => None,
    }
}

/// The retry delay from a response's header values, against the clock.
pub fn retry_after_ms_from_headers(retry_after: Option<&str>, ratelimit_reset: Option<&str>) -> (r:
    Option<u64>)
    ensures
        exists|now_ms: i64, now_secs: i64|
            r == #[trigger] retry_after_headers_spec(
                opt_str_view(retry_after),
                opt_str_view(ratelimit_reset),
                now_ms,
                now_secs,
            ),
{
    let now_ms = now_epoch_ms();
    let now_secs = now_epoch_secs();
    retry_after_ms_from_headers_at(retry_after, ratelimit_reset, now_ms, now_secs)
}

} // verus!
