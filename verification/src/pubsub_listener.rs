//! Supervising one Pub/Sub listener per account: which listeners to keep,
//! stop, reap and start so that exactly the configured accounts are listened
//! to, and the reconnect back-off of a listener.

use vstd::prelude::*;

use crate::text::str_eq;

verus! {

// ---------------------------------------------------------------------------
// Outside calls (std hashing)
// ---------------------------------------------------------------------------

/// The 64-bit hash `std::collections::hash_map::DefaultHasher::new()` gives a
/// string. `DefaultHasher::new` starts from fixed keys, so within one build the
/// hash depends on the string alone.
pub uninterp spec fn credentials_fingerprint(s: Seq<char>) -> u64;

/// Hashes a string with a fresh `DefaultHasher` (`BuildHasher::hash_one` of
/// `BuildHasherDefault<DefaultHasher>`, which builds `DefaultHasher::new()`,
/// hashes the value and finishes); the contract names the result.
#[verifier::external_body]
fn fingerprint(value: &str) -> (r: u64)
    ensures
        r == credentials_fingerprint(value@),
{
    std::hash::BuildHasher::hash_one(
        &std::hash::BuildHasherDefault::<std::collections::hash_map::DefaultHasher>::default(),
        value,
    )
}

// ---------------------------------------------------------------------------
// Listener configuration
// ---------------------------------------------------------------------------

/// An account that should be listened to, with its subscription and
/// service-account credentials.
#[derive(Debug, Clone, PartialEq, Eq)]
pub struct DesiredListener {
    pub account_id: String,
    pub subscription: String,
    pub credentials: String,
}

/// What a running listener remembers of its configuration: the subscription
/// and a fingerprint of the credentials.
#[derive(Debug, Clone, PartialEq, Eq)]
pub struct ListenerRuntimeConfig {
    pub subscription: String,
    pub credentials_fingerprint: u64,
}

/// A running listener's configuration agrees with a desired one.
pub open spec fn config_matches(c: ListenerRuntimeConfig, subscription: Seq<char>, credentials: Seq<char>) -> bool {
    c.subscription@ == subscription && c.credentials_fingerprint == credentials_fingerprint(credentials)
}

impl ListenerRuntimeConfig {
    /// The configuration a listener started for `cfg` remembers.
    pub fn from_desired(cfg: &DesiredListener) -> (r: Self)
        ensures
            r.subscription@ == cfg.subscription@,
            r.credentials_fingerprint == credentials_fingerprint(cfg.credentials@),
            config_matches(r, cfg.subscription@, cfg.credentials@),
    {
        ListenerRuntimeConfig {
            subscription: cfg.subscription.clone(),
            credentials_fingerprint: fingerprint(cfg.credentials.as_str()),
        }
    }

    /// The listener needs no restart for `desired`: same subscription and
    /// same credentials fingerprint.
    pub fn matches(&self, desired: &DesiredListener) -> (r: bool)
        ensures
            r == config_matches(*self, desired.subscription@, desired.credentials@),
    {
        str_eq(self.subscription.as_str(), desired.subscription.as_str()) && self.credentials_fingerprint
            == fingerprint(desired.credentials.as_str())
    }
}

// ---------------------------------------------------------------------------
// Reconciling
// ---------------------------------------------------------------------------

/// An account's Pub/Sub settings as stored.
#[derive(Debug, Clone, PartialEq, Eq)]
pub struct AccountPubsub {
    pub account_id: String,
    pub subscription: Option<String>,
    pub credentials: Option<String>,
}

/// A listener currently running (or whose task has ended).
#[derive(Debug, Clone, PartialEq, Eq)]
pub struct RunningListener {
    pub account_id: String,
    pub config: ListenerRuntimeConfig,
    /// Its task has already ended.
    pub finished: bool,
}

/// What to do with the listeners.
#[derive(Debug)]
pub struct ReconcilePlan {
    /// Ended listeners to join and forget.
    pub reap: Vec<String>,
    /// Running listeners to cancel, join and forget.
    pub stop: Vec<String>,
    /// Listeners to start.
    pub start: Vec<DesiredListener>,
}

/// The account should be listened to: it has both a subscription and
/// credentials.
pub open spec fn wants_listener(a: AccountPubsub) -> bool {
    a.subscription is Some && a.credentials is Some
}

/// The subscription and credentials an account id should be listened to with:
/// those of the last account with that id that has both; `None` when there is
/// no such account.
pub open spec fn desired_entry(accounts: Seq<AccountPubsub>, id: Seq<char>) -> Option<(Seq<char>, Seq<char>)>
    decreases accounts.len(),
{
    if accounts.len() == 0 {
        None
    } else {
        let a = accounts.last();
        if a.account_id@ == id && wants_listener(a) {
            Some((a.subscription->0@, a.credentials->0@))
        } else {
            desired_entry(accounts.drop_last(), id)
        }
    }
}

/// A listener that keeps running: its task has not ended and it is configured
/// as desired.
pub open spec fn keeps(accounts: Seq<AccountPubsub>, e: RunningListener) -> bool {
    !e.finished && match desired_entry(accounts, e.account_id@) {
        Some(d) => config_matches(e.config, d.0, d.1),
        None => false,
    }
}

/// Ids of the listeners kept running, in order.
pub open spec fn kept_ids(accounts: Seq<AccountPubsub>, existing: Seq<RunningListener>) -> Seq<Seq<char>>
    decreases existing.len(),
{
    if existing.len() == 0 {
        Seq::empty()
    } else {
        let rest = kept_ids(accounts, existing.drop_last());
        if keeps(accounts, existing.last()) {
            rest.push(existing.last().account_id@)
        } else {
            rest
        }
    }
}

/// Some running listener for `id` is kept.
pub open spec fn kept_id(accounts: Seq<AccountPubsub>, existing: Seq<RunningListener>, id: Seq<char>) -> bool {
    kept_ids(accounts, existing).contains(id)
}

/// Ids of the listeners whose task ended, in order.
pub open spec fn reaped_ids(existing: Seq<RunningListener>) -> Seq<Seq<char>>
    decreases existing.len(),
{
    if existing.len() == 0 {
        Seq::empty()
    } else {
        let rest = reaped_ids(existing.drop_last());
        if existing.last().finished {
            rest.push(existing.last().account_id@)
        } else {
            rest
        }
    }
}

/// Ids of the running listeners to stop (no longer wanted, or configured
/// otherwise), in order.
pub open spec fn stopped_ids(accounts: Seq<AccountPubsub>, existing: Seq<RunningListener>) -> Seq<Seq<char>>
    decreases existing.len(),
{
    if existing.len() == 0 {
        Seq::empty()
    } else {
        let rest = stopped_ids(accounts, existing.drop_last());
        let e = existing.last();
        if !e.finished && !keeps(accounts, e) {
            rest.push(e.account_id@)
        } else {
            rest
        }
    }
}

/// The views of a list of strings.
pub open spec fn id_views(ids: Seq<String>) -> Seq<Seq<char>> {
    ids.map_values(|s: String| s@)
}

proof fn lemma_desired_entry_found(accounts: Seq<AccountPubsub>, id: Seq<char>)
    ensures
        desired_entry(accounts, id) matches Some(d) ==> exists|j: int|
            0 <= j < accounts.len() && #[trigger] accounts[j].account_id@ == id && wants_listener(accounts[j])
                && d == (accounts[j].subscription->0@, accounts[j].credentials->0@),
        desired_entry(accounts, id) is None ==> forall|j: int|
            0 <= j < accounts.len() && #[trigger] accounts[j].account_id@ == id ==> !wants_listener(accounts[j]),
    decreases accounts.len(),
{
    if accounts.len() > 0 {
        let a = accounts.last();
        if !(a.account_id@ == id && wants_listener(a)) {
            lemma_desired_entry_found(accounts.drop_last(), id);
            if desired_entry(accounts, id) is Some {
                let j = choose|j: int|
                    0 <= j < accounts.drop_last().len() && #[trigger] accounts.drop_last()[j].account_id@ == id
                        && wants_listener(accounts.drop_last()[j]) && desired_entry(accounts, id)->0 == (
                    accounts.drop_last()[j].subscription->0@,
                    accounts.drop_last()[j].credentials->0@,
                );
                assert(accounts[j] == accounts.drop_last()[j]);
            } else {
                assert forall|j: int|
                    0 <= j < accounts.len() && #[trigger] accounts[j].account_id@ == id implies !wants_listener(
                    accounts[j],
                ) by {
                    if j < accounts.len() - 1 {
                        assert(accounts[j] == accounts.drop_last()[j]);
                    }
                }
            }
        } else {
            assert(accounts[accounts.len() - 1].account_id@ == id);
        }
    }
}

proof fn lemma_desired_entry_prefix(accounts: Seq<AccountPubsub>, id: Seq<char>, i: int)
    requires
        0 <= i <= accounts.len(),
        forall|j: int| i <= j < accounts.len() && #[trigger] accounts[j].account_id@ == id ==> !wants_listener(accounts[j]),
    ensures
        desired_entry(accounts, id) == desired_entry(accounts.take(i), id),
    decreases accounts.len() - i,
{
    if i < accounts.len() {
        assert(accounts[accounts.len() - 1].account_id@ == id ==> !wants_listener(accounts[accounts.len() - 1]));
        assert(accounts.drop_last().take(i) =~= accounts.take(i));
        assert forall|j: int|
            i <= j < accounts.drop_last().len() && #[trigger] accounts.drop_last()[j].account_id@ == id implies !wants_listener(
            accounts.drop_last()[j],
        ) by {
            assert(accounts.drop_last()[j] == accounts[j]);
        }
        lemma_desired_entry_prefix(accounts.drop_last(), id, i);
    } else {
        assert(accounts.take(i) =~= accounts);
    }
}

/// The subscription and credentials `id` should be listened to with.
fn find_desired<'a>(accounts: &'a Vec<AccountPubsub>, id: &str) -> (r: Option<(&'a String, &'a String)>)
    ensures
        match r {
            Some((s, c)) => desired_entry(accounts@, id@) == Some((s@, c@)),
            None => desired_entry(accounts@, id@) is None,
        },
{
    let mut i = accounts.len();
    assert(accounts@.take(i as int) =~= accounts@);
    while i > 0
        invariant
            i <= accounts.len(),
            desired_entry(accounts@, id@) == desired_entry(accounts@.take(i as int), id@),
        decreases i,
    {
        let a = &accounts[i - 1];
        assert(accounts@.take(i as int).last() == accounts@[i - 1]);
        assert(accounts@.take(i as int).drop_last() =~= accounts@.take(i - 1));
        if str_eq(a.account_id.as_str(), id) {
            match (&a.subscription, &a.credentials) {
                (Some(s), Some(c)) => {
                    return Some((s, c));
                },
                _ => {},
            }
        }
        i = i - 1;
    }
    None
}

fn contains_id(ids: &Vec<String>, id: &str) -> (r: bool)
    ensures
        r == id_views(ids@).contains(id@),
{
    let mut k: usize = 0;
    while k < ids.len()
        invariant
            k <= ids.len(),
            forall|j: int| 0 <= j < k ==> (#[trigger] ids@[j])@ != id@,
        decreases ids.len() - k,
    {
        if str_eq(ids[k].as_str(), id) {
            assert(id_views(ids@)[k as int] == id@);
            return true;
        }
        k = k + 1;
    }
    assert(!id_views(ids@).contains(id@)) by {
        if id_views(ids@).contains(id@) {
            let j = choose|j: int| 0 <= j < id_views(ids@).len() && id_views(ids@)[j] == id@;
            assert(ids@[j]@ == id@);
        }
    }
    false
}

fn push_id(ids: &mut Vec<String>, id: String)
    ensures
        id_views(final(ids)@) == id_views(old(ids)@).push(id@),
{
    ids.push(id);
    assert(id_views(ids@) =~= id_views(old(ids)@).push(id@));
}

/// Sorts the running listeners into those to reap, to stop and to keep.
fn partition_listeners(existing: &Vec<RunningListener>, accounts: &Vec<AccountPubsub>) -> (r: (
    Vec<String>,
    Vec<String>,
    Vec<String>,
))
    ensures
        id_views(r.0@) == reaped_ids(existing@),
        id_views(r.1@) == stopped_ids(accounts@, existing@),
        id_views(r.2@) == kept_ids(accounts@, existing@),
{
    let mut reap: Vec<String> = Vec::new();
    let mut stop: Vec<String> = Vec::new();
    let mut kept: Vec<String> = Vec::new();
    let mut i: usize = 0;
    while i < existing.len()
        invariant
            i <= existing.len(),
            id_views(reap@) == reaped_ids(existing@.take(i as int)),
            id_views(stop@) == stopped_ids(accounts@, existing@.take(i as int)),
            id_views(kept@) == kept_ids(accounts@, existing@.take(i as int)),
        decreases existing.len() - i,
    {
        let e = &existing[i];
        assert(existing@.take(i + 1).drop_last() =~= existing@.take(i as int));
        assert(existing@.take(i + 1).last() == existing@[i as int]);
        if e.finished {
            push_id(&mut reap, e.account_id.clone());
        } else {
            let keep = match find_desired(accounts, e.account_id.as_str()) {
                Some((s, c)) => str_eq(e.config.subscription.as_str(), s.as_str())
                    && e.config.credentials_fingerprint == fingerprint(c.as_str()),
                None => false,
            };
            if keep {
                push_id(&mut kept, e.account_id.clone());
            } else {
                push_id(&mut stop, e.account_id.clone());
            }
        }
        i = i + 1;
    }
    assert(existing@.take(existing.len() as int) =~= existing@);
    (reap, stop, kept)
}

/// The listeners to start: one per account id that should be listened to and
/// is not among `kept`, with that id's latest configuration.
fn plan_starts(accounts: &Vec<AccountPubsub>, kept: &Vec<String>) -> (r: Vec<DesiredListener>)
    ensures
        forall|k: int|
            0 <= k < r@.len() ==> desired_entry(accounts@, (#[trigger] r@[k]).account_id@) == Some(
                (r@[k].subscription@, r@[k].credentials@),
            ) && !id_views(kept@).contains(r@[k].account_id@),
        forall|k1: int, k2: int|
            0 <= k1 < k2 < r@.len() ==> (#[trigger] r@[k1]).account_id@ != (#[trigger] r@[k2]).account_id@,
        forall|id: Seq<char>|
            #[trigger] desired_entry(accounts@, id) is Some && !id_views(kept@).contains(id) ==> exists|k: int|
                0 <= k < r@.len() && (#[trigger] r@[k]).account_id@ == id,
{
    let ghost kv = id_views(kept@);
    let mut start: Vec<DesiredListener> = Vec::new();
    let mut seen: Vec<String> = Vec::new();
    let mut n = accounts.len();
    while n > 0
        invariant
            n <= accounts.len(),
            kv == id_views(kept@),
            forall|k: int|
                0 <= k < start@.len() ==> desired_entry(accounts@, (#[trigger] start@[k]).account_id@) == Some(
                    (start@[k].subscription@, start@[k].credentials@),
                ) && !kv.contains(start@[k].account_id@) && id_views(seen@).contains(start@[k].account_id@),
            forall|k1: int, k2: int|
                0 <= k1 < k2 < start@.len() ==> (#[trigger] start@[k1]).account_id@ != (
                #[trigger] start@[k2]).account_id@,
            forall|j: int|
                n <= j < accounts@.len() && wants_listener(#[trigger] accounts@[j]) ==> id_views(seen@).contains(
                    accounts@[j].account_id@,
                ),
            forall|q: int|
                0 <= q < id_views(seen@).len() && !kv.contains(#[trigger] id_views(seen@)[q]) ==> exists|k: int|
                    0 <= k < start@.len() && (#[trigger] start@[k]).account_id@ == id_views(seen@)[q],
        decreases n,
    {
        let a = &accounts[n - 1];
        match (&a.subscription, &a.credentials) {
            (Some(s), Some(c)) => {
                if !contains_id(&seen, a.account_id.as_str()) {
                    let is_kept = contains_id(kept, a.account_id.as_str());
                    let ghost id = a.account_id@;
                    proof {
                        assert forall|j: int|
                            n <= j < accounts@.len() && #[trigger] accounts@[j].account_id@ == id implies !wants_listener(
                            accounts@[j],
                        ) by {}
                        lemma_desired_entry_prefix(accounts@, id, n as int);
                        assert(accounts@.take(n as int).last() == accounts@[n - 1]);
                    }
                    let ghost old_seen = id_views(seen@);
                    let ghost old_start = start@;
                    push_id(&mut seen, a.account_id.clone());
                    if !is_kept {
                        start.push(
                            DesiredListener {
                                account_id: a.account_id.clone(),
                                subscription: s.clone(),
                                credentials: c.clone(),
                            },
                        );
                    }
                    proof {
                        assert forall|k: int| 0 <= k < old_start.len() implies id_views(seen@).contains(
                            #[trigger] start@[k].account_id@,
                        ) by {
                            assert(start@[k] == old_start[k]);
                            let q = choose|q: int| 0 <= q < old_seen.len() && old_seen[q] == old_start[k].account_id@;
                            assert(id_views(seen@)[q] == old_seen[q]);
                        }
                        assert(id_views(seen@)[old_seen.len() as int] == id);
                        assert forall|q: int|
                            0 <= q < id_views(seen@).len() && !kv.contains(
                                #[trigger] id_views(seen@)[q],
                            ) implies exists|k: int|
                            0 <= k < start@.len() && (#[trigger] start@[k]).account_id@ == id_views(seen@)[q] by {
                            if q < old_seen.len() {
                                assert(id_views(seen@)[q] == old_seen[q]);
                                let k = choose|k: int|
                                    0 <= k < old_start.len() && (#[trigger] old_start[k]).account_id@ == old_seen[q];
                                assert(start@[k] == old_start[k]);
                            } else {
                                assert(start@[start@.len() - 1].account_id@ == id);
                            }
                        }
                        assert forall|j: int|
                            n - 1 <= j < accounts@.len() && wants_listener(#[trigger] accounts@[j]) implies id_views(
                                seen@,
                            ).contains(accounts@[j].account_id@) by {
                            if j >= n {
                                let q = choose|q: int|
                                    0 <= q < old_seen.len() && old_seen[q] == accounts@[j].account_id@;
                                assert(id_views(seen@)[q] == old_seen[q]);
                            }
                        }
                    }
                }
            },
            _ => {},
        }
        n = n - 1;
    }
    proof {
        assert forall|id: Seq<char>|
            #[trigger] desired_entry(accounts@, id) is Some && !id_views(kept@).contains(id) implies exists|k: int|
                0 <= k < start@.len() && (#[trigger] start@[k]).account_id@ == id by {
            lemma_desired_entry_found(accounts@, id);
            let j = choose|j: int|
                0 <= j < accounts@.len() && #[trigger] accounts@[j].account_id@ == id && wants_listener(accounts@[j])
                    && desired_entry(accounts@, id)->0 == (
                    accounts@[j].subscription->0@,
                    accounts@[j].credentials->0@,
                );
            assert(id_views(seen@).contains(id));
            let q = choose|q: int| 0 <= q < id_views(seen@).len() && id_views(seen@)[q] == id;
        }
    }
    start
}

/// Decides which listeners to reap, stop and start so that exactly the
/// accounts with a subscription and credentials are listened to, each with
/// its latest configuration. Listeners that still run with the desired
/// configuration are left alone.
pub fn plan_reconcile(existing: &Vec<RunningListener>, accounts: &Vec<AccountPubsub>) -> (r: ReconcilePlan)
    ensures
        id_views(r.reap@) == reaped_ids(existing@),
        id_views(r.stop@) == stopped_ids(accounts@, existing@),
        forall|k: int|
            0 <= k < r.start@.len() ==> desired_entry(accounts@, (#[trigger] r.start@[k]).account_id@) == Some(
                (r.start@[k].subscription@, r.start@[k].credentials@),
            ) && !kept_id(accounts@, existing@, r.start@[k].account_id@),
        forall|k1: int, k2: int|
            0 <= k1 < k2 < r.start@.len() ==> (#[trigger] r.start@[k1]).account_id@ != (
            #[trigger] r.start@[k2]).account_id@,
        forall|id: Seq<char>|
            #[trigger] desired_entry(accounts@, id) is Some && !kept_id(accounts@, existing@, id) ==> exists|k: int|
                0 <= k < r.start@.len() && (#[trigger] r.start@[k]).account_id@ == id,
{
    let (reap, stop, kept) = partition_listeners(existing, accounts);
    let start = plan_starts(accounts, &kept);
    ReconcilePlan { reap, stop, start }
}

proof fn lemma_kept_ids_sound(accounts: Seq<AccountPubsub>, existing: Seq<RunningListener>, id: Seq<char>)
    requires
        kept_ids(accounts, existing).contains(id),
    ensures
        desired_entry(accounts, id) is Some,
    decreases existing.len(),
{
    let rest = kept_ids(accounts, existing.drop_last());
    if keeps(accounts, existing.last()) && existing.last().account_id@ == id {
    } else if keeps(accounts, existing.last()) {
        let q = choose|q: int| 0 <= q < kept_ids(accounts, existing).len() && kept_ids(accounts, existing)[q] == id;
        assert(q < rest.len());
        assert(rest[q] == id);
        lemma_kept_ids_sound(accounts, existing.drop_last(), id);
    } else {
        lemma_kept_ids_sound(accounts, existing.drop_last(), id);
    }
}

/// After reconciling, exactly the wanted accounts are listened to: an id has a
/// listener (kept or started) exactly when some account with that id has a
/// subscription and credentials; no id is both kept and started; and every
/// started listener carries the account's latest configuration.
pub proof fn lemma_reconcile_covers_desired(
    existing: Seq<RunningListener>,
    accounts: Seq<AccountPubsub>,
    start: Seq<DesiredListener>,
    id: Seq<char>,
)
    requires
        forall|k: int|
            0 <= k < start.len() ==> desired_entry(accounts, (#[trigger] start[k]).account_id@) == Some(
                (start[k].subscription@, start[k].credentials@),
            ) && !kept_id(accounts, existing, start[k].account_id@),
        forall|i: Seq<char>|
            #[trigger] desired_entry(accounts, i) is Some && !kept_id(accounts, existing, i) ==> exists|k: int|
                0 <= k < start.len() && (#[trigger] start[k]).account_id@ == i,
    ensures
        (kept_id(accounts, existing, id) || exists|k: int| 0 <= k < start.len() && (#[trigger] start[k]).account_id@ == id)
            <==> (exists|j: int|
            0 <= j < accounts.len() && #[trigger] accounts[j].account_id@ == id && wants_listener(accounts[j])),
        !(kept_id(accounts, existing, id) && exists|k: int| 0 <= k < start.len() && (#[trigger] start[k]).account_id@ == id),
{
    lemma_desired_entry_found(accounts, id);
    if kept_id(accounts, existing, id) {
        lemma_kept_ids_sound(accounts, existing, id);
    }
    if exists|k: int| 0 <= k < start.len() && (#[trigger] start[k]).account_id@ == id {
        let k = choose|k: int| 0 <= k < start.len() && (#[trigger] start[k]).account_id@ == id;
        assert(desired_entry(accounts, id) is Some);
    }
    if exists|j: int| 0 <= j < accounts.len() && #[trigger] accounts[j].account_id@ == id && wants_listener(accounts[j]) {
        let j = choose|j: int| 0 <= j < accounts.len() && #[trigger] accounts[j].account_id@ == id && wants_listener(accounts[j]);
        assert(desired_entry(accounts, id) is Some);
    }
}

// ---------------------------------------------------------------------------
// Reconnecting
// ---------------------------------------------------------------------------

/// First pause before reopening a stream, in milliseconds.
pub const INITIAL_RECONNECT_BACKOFF_MS: u64 = 1000;

/// Longest pause before reopening a stream, in milliseconds.
pub const MAX_RECONNECT_BACKOFF_MS: u64 = 60_000;

/// Seconds between two reconciliations.
pub const SUPERVISOR_POLL_SECS: u64 = 30;

/// The pause after `current`: twice as long, at most a minute.
pub fn next_reconnect_backoff(current_ms: u64) -> (r: u64)
    ensures
        r == if 2 * current_ms > MAX_RECONNECT_BACKOFF_MS {
            MAX_RECONNECT_BACKOFF_MS as int
        } else {
            2 * current_ms
        },
        current_ms <= MAX_RECONNECT_BACKOFF_MS ==> current_ms <= r <= MAX_RECONNECT_BACKOFF_MS,
{
    if current_ms > MAX_RECONNECT_BACKOFF_MS / 2 {
        MAX_RECONNECT_BACKOFF_MS
    } else {
        current_ms * 2
    }
}

/// Whether a received message is acknowledged (processed) or handed back.
#[derive(Debug, Clone, Copy, PartialEq, Eq)]
pub enum Disposition {
    Ack,
    Nack,
}

/// A message is acknowledged exactly when processing it succeeded.
pub fn message_disposition(processed: bool) -> (r: Disposition)
    ensures
        processed ==> r == Disposition::Ack,
        !processed ==> r == Disposition::Nack,
{
    if processed {
        Disposition::Ack
    } else {
        Disposition::Nack
    }
}

// ---------------------------------------------------------------------------
// One account's listener loop
// ---------------------------------------------------------------------------

/// Where an account's listener stands.
#[derive(Debug, Clone, Copy, PartialEq, Eq)]
pub enum ListenerPhase {
    /// Waiting for a streaming pull to open.
    Opening,
    /// Receiving messages from an open stream.
    Streaming,
    /// Pausing before the next attempt to open a stream.
    Pausing,
    /// The listener has returned.
    Stopped,
}

/// The listener's state: its phase and the pause to take after the next
/// failed or ended stream, in milliseconds.
#[derive(Debug, Clone, Copy, PartialEq, Eq)]
pub struct ListenerState {
    pub phase: ListenerPhase,
    pub backoff_ms: u64,
}

/// What happened since the last action.
#[derive(Debug, Clone, Copy, PartialEq, Eq)]
pub enum ListenerEvent {
    /// The streaming pull opened.
    Opened,
    /// Opening the streaming pull failed.
    OpenFailed,
    /// A message arrived and was processed (`true`) or failed to process.
    Received { processed: bool },
    /// The stream ended.
    StreamEnded,
    /// The pause is over; `shutdown` tells whether shutdown has been requested
    /// by then.
    Paused { shutdown: bool },
    /// Shutdown was requested while waiting.
    ShutdownRequested,
}

/// What the listener does next.
#[derive(Debug, Clone, Copy, PartialEq, Eq)]
pub enum ListenerAction {
    /// Open a streaming pull.
    Open,
    /// Wait for the next message.
    Receive,
    /// Acknowledge or hand back the message, then wait for the next one.
    Settle(Disposition),
    /// Dispose of any stream and sleep this long, unless shutdown comes first.
    Pause { ms: u64 },
    /// Cancel and dispose of the open stream, then return.
    CloseAndStop,
    /// Return.
    Stop,
}

/// The events the listener waits for in each phase.
pub open spec fn listener_expects(phase: ListenerPhase, event: ListenerEvent) -> bool {
    match phase {
        ListenerPhase::Opening => event is Opened || event is OpenFailed || event is ShutdownRequested,
        ListenerPhase::Streaming => event is Received || event is StreamEnded || event is ShutdownRequested,
        ListenerPhase::Pausing => event is Paused || event is ShutdownRequested,
        ListenerPhase::Stopped => false,
    }
}

/// The pause after `current`, as [`next_reconnect_backoff`] computes it.
pub open spec fn doubled_backoff(current: u64) -> u64 {
    if 2 * current > MAX_RECONNECT_BACKOFF_MS {
        MAX_RECONNECT_BACKOFF_MS
    } else {
        (2 * current) as u64
    }
}

/// One move of the listener loop: a successful open resets the pause; a
/// failed open or an ended stream pauses, and the pause doubles (up to a
/// minute) before the next attempt; each message is acknowledged when it was
/// processed and handed back otherwise; shutdown stops the listener, closing
/// an open stream first.
pub open spec fn listener_transition(s: ListenerState, e: ListenerEvent) -> (ListenerState, ListenerAction) {
    match e {
        ListenerEvent::ShutdownRequested => (
            ListenerState { phase: ListenerPhase::Stopped, backoff_ms: s.backoff_ms },
            if s.phase == ListenerPhase::Streaming {
                ListenerAction::CloseAndStop
            } else {
                ListenerAction::Stop
            },
        ),
        ListenerEvent::Opened => (
            ListenerState { phase: ListenerPhase::Streaming, backoff_ms: INITIAL_RECONNECT_BACKOFF_MS },
            ListenerAction::Receive,
        ),
        ListenerEvent::OpenFailed | ListenerEvent::StreamEnded => (
            ListenerState { phase: ListenerPhase::Pausing, backoff_ms: s.backoff_ms },
            ListenerAction::Pause { ms: s.backoff_ms },
        ),
        ListenerEvent::Received { processed } => (
            s,
            ListenerAction::Settle(if processed { Disposition::Ack } else { Disposition::Nack }),
        ),
        ListenerEvent::Paused { shutdown } => if shutdown {
            (ListenerState { phase: ListenerPhase::Stopped, backoff_ms: doubled_backoff(s.backoff_ms) }, ListenerAction::Stop)
        } else {
            (
                ListenerState { phase: ListenerPhase::Opening, backoff_ms: doubled_backoff(s.backoff_ms) },
                ListenerAction::Open,
            )
        },
    }
}

/// How a listener begins: it opens a stream with the initial pause, unless
/// shutdown has already been requested.
pub fn listener_start(shutdown: bool) -> (r: (ListenerState, ListenerAction))
    ensures
        shutdown ==> r.0.phase == ListenerPhase::Stopped && r.1 == ListenerAction::Stop,
        !shutdown ==> r.0.phase == ListenerPhase::Opening && r.1 == ListenerAction::Open,
        r.0.backoff_ms == INITIAL_RECONNECT_BACKOFF_MS,
{
    if shutdown {
        (ListenerState { phase: ListenerPhase::Stopped, backoff_ms: INITIAL_RECONNECT_BACKOFF_MS }, ListenerAction::Stop)
    } else {
        (ListenerState { phase: ListenerPhase::Opening, backoff_ms: INITIAL_RECONNECT_BACKOFF_MS }, ListenerAction::Open)
    }
}

/// Takes what happened and gives the listener's next state and action. The
/// pause stays between one second and a minute.
pub fn listener_step(state: ListenerState, event: ListenerEvent) -> (r: (ListenerState, ListenerAction))
    requires
        listener_expects(state.phase, event),
    ensures
        r == listener_transition(state, event),
        INITIAL_RECONNECT_BACKOFF_MS <= state.backoff_ms <= MAX_RECONNECT_BACKOFF_MS
            ==> INITIAL_RECONNECT_BACKOFF_MS <= r.0.backoff_ms <= MAX_RECONNECT_BACKOFF_MS,
{
    match event {
        ListenerEvent::ShutdownRequested => {
            let action = match state.phase {
                ListenerPhase::Streaming => ListenerAction::CloseAndStop,
                _ => ListenerAction::Stop,
            };
            (ListenerState { phase: ListenerPhase::Stopped, backoff_ms: state.backoff_ms }, action)
        },
        ListenerEvent::Opened => (
            ListenerState { phase: ListenerPhase::Streaming, backoff_ms: INITIAL_RECONNECT_BACKOFF_MS },
            ListenerAction::Receive,
        ),
        ListenerEvent::OpenFailed | ListenerEvent::StreamEnded => (
            ListenerState { phase: ListenerPhase::Pausing, backoff_ms: state.backoff_ms },
            ListenerAction::Pause { ms: state.backoff_ms },
        ),
        ListenerEvent::Received { processed } => (state, ListenerAction::Settle(message_disposition(processed))),
        ListenerEvent::Paused { shutdown } => {
            let backoff_ms = next_reconnect_backoff(state.backoff_ms);
            if shutdown {
                (ListenerState { phase: ListenerPhase::Stopped, backoff_ms }, ListenerAction::Stop)
            } else {
                (ListenerState { phase: ListenerPhase::Opening, backoff_ms }, ListenerAction::Open)
            }
        },
    }
}

/// The listener loop's promises: a shutdown request always stops it, closing
/// an open stream; a successful open resets the pause to one second; after a
/// pause it reopens with a doubled pause of at most a minute unless shutdown
/// was requested; a message is acknowledged exactly when it was processed;
/// and the pause never leaves the range from one second to a minute.
pub proof fn lemma_listener_protocol(s: ListenerState, e: ListenerEvent)
    requires
        listener_expects(s.phase, e),
        INITIAL_RECONNECT_BACKOFF_MS <= s.backoff_ms <= MAX_RECONNECT_BACKOFF_MS,
    ensures
        e is ShutdownRequested ==> listener_transition(s, e).0.phase == ListenerPhase::Stopped
            && (listener_transition(s, e).1 == ListenerAction::CloseAndStop <==> s.phase == ListenerPhase::Streaming),
        e is Opened ==> listener_transition(s, e).0.backoff_ms == INITIAL_RECONNECT_BACKOFF_MS,
        e == (ListenerEvent::Paused { shutdown: false }) ==> listener_transition(s, e).1 == ListenerAction::Open
            && s.backoff_ms <= listener_transition(s, e).0.backoff_ms,
        e == (ListenerEvent::Paused { shutdown: true }) ==> listener_transition(s, e).0.phase == ListenerPhase::Stopped,
        e matches ListenerEvent::Received { processed } ==> listener_transition(s, e).1 == ListenerAction::Settle(
            if processed { Disposition::Ack } else { Disposition::Nack },
        ),
        INITIAL_RECONNECT_BACKOFF_MS <= listener_transition(s, e).0.backoff_ms <= MAX_RECONNECT_BACKOFF_MS,
{
}

} // verus!
