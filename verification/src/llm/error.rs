//! Errors reported by a language-model client, with their display text.

use vstd::prelude::*;

use crate::text::{decimal, decimal_vec, push_all, push_str, string_from_chars};

verus! {

/// How long the provider asked us to wait before retrying, when it said so.
#[derive(Debug, Clone, Copy, PartialEq, Eq, Structural)]
pub struct RateLimitInfo {
    pub retry_after_ms: Option<u64>,
}

impl RateLimitInfo {
    pub fn new(retry_after_ms: Option<u64>) -> (r: Self)
        ensures
            r.retry_after_ms == retry_after_ms,
    {
        Self { retry_after_ms }
    }

    /// The suffix this value adds to a rate-limit message.
    pub open spec fn suffix_spec(self) -> Seq<char> {
        match self.retry_after_ms {
            Some(ms) => " (retry after "@ + decimal(ms as nat) + "ms)"@,
            None => Seq::empty(),
        }
    }

    /// Display text: ` (retry after Nms)` when a delay is known, else empty.
    pub fn to_string(&self) -> (r: String)
        ensures
            r@ == self.suffix_spec(),
    {
        let mut v: Vec<char> = Vec::new();
        match self.retry_after_ms {
            Some(ms) => {
                push_str(&mut v, " (retry after ");
                let d = decimal_vec(ms);
                push_all(&mut v, &d);
                push_str(&mut v, "ms)");
            },
            None => {},
        }
        string_from_chars(&v)
    }
}

/// A failed completion, by cause.
#[derive(Debug, Clone, PartialEq, Eq)]
pub enum LLMError {
    RateLimited(RateLimitInfo),
    AuthenticationFailed,
    InvalidRequest(String),
    ServerError(String),
    Timeout,
    ParseError(String),
    ProviderError(String),
}

/// The display text of an error.
pub open spec fn llm_error_text(e: LLMError) -> Seq<char> {
    match e {
        LLMError::RateLimited(info) => "rate limited"@ + info.suffix_spec(),
        LLMError::AuthenticationFailed => "authentication failed"@,
        LLMError::InvalidRequest(s) => "invalid request: "@ + s@,
        LLMError::ServerError(s) => "server error: "@ + s@,
        LLMError::Timeout => "timeout"@,
        LLMError::ParseError(s) => "parse error: "@ + s@,
        LLMError::ProviderError(s) => "provider error: "@ + s@,
    }
}

impl LLMError {
    /// The error's display text.
    pub fn to_string(&self) -> (r: String)
        ensures
            r@ == llm_error_text(*self),
    {
        let mut v: Vec<char> = Vec::new();
        match self {
            LLMError::RateLimited(info) => {
                push_str(&mut v, "rate limited");
                match info.retry_after_ms {
                    Some(ms) => {
                        push_str(&mut v, " (retry after ");
                        let d = decimal_vec(ms);
                        push_all(&mut v, &d);
                        push_str(&mut v, "ms)");
                    },
                    None => {},
                }
            },
            LLMError::AuthenticationFailed => {
                push_str(&mut v, "authentication failed");
            },
            LLMError::InvalidRequest(s) => {
                push_str(&mut v, "invalid request: ");
                push_str(&mut v, s.as_str());
            },
            LLMError::ServerError(s) => {
                push_str(&mut v, "server error: ");
                push_str(&mut v, s.as_str());
            },
            LLMError::Timeout => {
                push_str(&mut v, "timeout");
            },
            LLMError::ParseError(s) => {
                push_str(&mut v, "parse error: ");
                push_str(&mut v, s.as_str());
            },
            LLMError::ProviderError(s) => {
                push_str(&mut v, "provider error: ");
                push_str(&mut v, s.as_str());
            },
        }
        string_from_chars(&v)
    }
}

} // verus!
