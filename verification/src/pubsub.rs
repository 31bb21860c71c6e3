//! Gmail push notifications: unwrapping their payload and turning each into
//! one history-sync job per account and history id.

use vstd::prelude::*;

use crate::text::{chars_of, push_str, string_from_chars};

verus! {

// ---------------------------------------------------------------------------
// Outside calls (std, base64)
// ---------------------------------------------------------------------------

/// The text bytes spell in UTF-8, or `None` when they are not valid UTF-8
/// (`std::str::from_utf8`). It depends on the bytes alone.
pub uninterp spec fn utf8_text(bytes: Seq<u8>) -> Option<Seq<char>>;

/// The bytes URL-safe base64 without padding decodes to, or `None` when the
/// text is not such base64 (`base64::Engine::decode` with
/// `BASE64_URL_SAFE_NO_PAD`). It depends on the text alone.
pub uninterp spec fn base64_url_decoded(text: Seq<char>) -> Option<Seq<u8>>;

/// Reads bytes as UTF-8 text (`std::str::from_utf8`); the contract names the
/// result.
#[verifier::external_body]
fn decode_utf8(bytes: &Vec<u8>) -> (r: Option<String>)
    ensures
        match r {
            Some(t) => utf8_text(bytes@) == Some(t@),
            None => utf8_text(bytes@) is None,
        },
{
    match std::str::from_utf8(bytes.as_slice()) {
        Ok(t) => Some(t.to_string()),
        Err(_) => None,
    }
}

/// Decodes URL-safe base64 without padding (`base64::Engine::decode` on
/// `base64::prelude::BASE64_URL_SAFE_NO_PAD`); the contract names the result.
#[verifier::external_body]
fn decode_base64_url(text: &str) -> (r: Option<Vec<u8>>)
    ensures
        match r {
            Some(b) => base64_url_decoded(text@) == Some(b@),
            None => base64_url_decoded(text@) is None,
        },
{
    base64::Engine::decode(&base64::prelude::BASE64_URL_SAFE_NO_PAD, text).ok()
}

// ---------------------------------------------------------------------------
// Notifications
// ---------------------------------------------------------------------------

/// A Gmail change notification: the mailbox and the history id it reached.
#[derive(Debug, Clone, PartialEq, Eq)]
pub struct GmailNotification {
    pub email_address: String,
    pub history_id: String,
}

/// Why a notification's payload could not be unwrapped.
#[derive(Debug, Clone, Copy, PartialEq, Eq)]
pub enum PayloadError {
    /// The message data is not UTF-8 text.
    Utf8,
    /// The text is not URL-safe base64 without padding.
    Base64,
}

/// The JSON document a Pub/Sub message from Gmail carries: its data, read as
/// UTF-8 text, decoded from URL-safe base64 without padding.
pub open spec fn notification_payload_spec(data: Seq<u8>) -> Result<Seq<u8>, PayloadError> {
    match utf8_text(data) {
        None => Err(PayloadError::Utf8),
        Some(t) => match base64_url_decoded(t) {
            None => Err(PayloadError::Base64),
            Some(b) => Ok(b),
        },
    }
}

/// Unwraps the JSON document of a Gmail Pub/Sub message.
pub fn notification_payload(data: &Vec<u8>) -> (r: Result<Vec<u8>, PayloadError>)
    ensures
        match r {
            Ok(b) => notification_payload_spec(data@) == Ok::<Seq<u8>, PayloadError>(b@),
            Err(e) => notification_payload_spec(data@) == Err::<Seq<u8>, PayloadError>(e),
        },
{
    let text = match decode_utf8(data) {
        Some(t) => t,
        None => {
            return Err(PayloadError::Utf8);
        },
    };
    match decode_base64_url(text.as_str()) {
        Some(b) => Ok(b),
        None => Err(PayloadError::Base64),
    }
}

// ---------------------------------------------------------------------------
// History jobs
// ---------------------------------------------------------------------------

/// Job type of a Gmail history sync.
pub const JOB_TYPE_HISTORY_SYNC_GMAIL: &'static str = "history.sync.gmail";

/// Priority of a history sync job.
pub const HISTORY_JOB_PRIORITY: i64 = 1;

/// The idempotency key of the history sync of `history_id` for `account_id`.
pub open spec fn history_key_spec(job_type: Seq<char>, account_id: Seq<char>, history_id: Seq<char>) -> Seq<char> {
    job_type + ":"@ + account_id + ":"@ + history_id
}

/// The idempotency key of a history sync: `history.sync.gmail:<account>:<history>`.
/// Two notifications share a key exactly when they name the same account and
/// history id (see `lemma_history_key_injective`), so each is synced once.
pub fn history_idempotency_key(account_id: &str, notification: &GmailNotification) -> (r: String)
    ensures
        r@ == history_key_spec(JOB_TYPE_HISTORY_SYNC_GMAIL@, account_id@, notification.history_id@),
{
    let mut v = chars_of(JOB_TYPE_HISTORY_SYNC_GMAIL);
    push_str(&mut v, ":");
    push_str(&mut v, account_id);
    push_str(&mut v, ":");
    push_str(&mut v, notification.history_id.as_str());
    string_from_chars(&v)
}

/// Keys of history syncs for accounts without a colon in their id are equal
/// only for the same account and history id.
pub proof fn lemma_history_key_injective(
    job_type: Seq<char>,
    a1: Seq<char>,
    h1: Seq<char>,
    a2: Seq<char>,
    h2: Seq<char>,
)
    requires
        !a1.contains(':'),
        !a2.contains(':'),
        history_key_spec(job_type, a1, h1) == history_key_spec(job_type, a2, h2),
    ensures
        a1 == a2,
        h1 == h2,
{
    reveal_strlit(":");
    let k1 = history_key_spec(job_type, a1, h1);
    let k2 = history_key_spec(job_type, a2, h2);
    let base: int = job_type.len() as int + 1;
    assert(k1[job_type.len() as int] == ':');
    if a1.len() < a2.len() {
        assert(k1[base + a1.len()] == ':');
        assert(k2[base + a1.len()] == a2[a1.len() as int]);
        assert(a2.contains(':'));
    } else if a2.len() < a1.len() {
        assert(k2[base + a2.len()] == ':');
        assert(k1[base + a2.len()] == a1[a2.len() as int]);
        assert(a1.contains(':'));
    }
    assert(a1.len() == a2.len());
    assert forall|i: int| 0 <= i < a1.len() implies a1[i] == a2[i] by {
        assert(k1[base + i] == a1[i]);
        assert(k2[base + i] == a2[i]);
    }
    assert(a1 =~= a2);
    assert(k1.len() == job_type.len() + 1 + a1.len() + 1 + h1.len());
    assert(k2.len() == job_type.len() + 1 + a2.len() + 1 + h2.len());
    assert(h1.len() == h2.len());
    let hb: int = base + a1.len() + 1;
    assert forall|i: int| 0 <= i < h1.len() implies h1[i] == h2[i] by {
        assert(k1[hb + i] == h1[i]);
        assert(k2[hb + i] == h2[i]);
    }
    assert(h1 =~= h2);
}

/// How enqueueing a history sync went.
#[derive(Debug, Clone, PartialEq, Eq)]
pub enum HistoryEnqueue {
    Enqueued,
    /// A job with the same idempotency key already exists.
    Duplicate,
    Failed(String),
}

/// A duplicate is success: the sync it asks for is already queued.
pub fn history_enqueue_result(outcome: HistoryEnqueue) -> (r: Result<(), String>)
    ensures
        match outcome {
            HistoryEnqueue::Enqueued | HistoryEnqueue::Duplicate => r is Ok,
            HistoryEnqueue::Failed(e) => r == Err::<(), String>(e),
        },
{
    match outcome {
        HistoryEnqueue::Enqueued => Ok(()),
        HistoryEnqueue::Duplicate => Ok(()),
        HistoryEnqueue::Failed(e) => Err(e),
    }
}

} // verus!
