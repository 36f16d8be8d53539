//! Decision logic for a server that runs the protocol against real
//! network backends.
//!
//! The server performs the calls (cache read, store count, store
//! append) and hands each outcome back as a plain event; these
//! functions decide every step in between, so the whole control flow of
//! the protocol is verified even though the calls themselves are not.

use vstd::prelude::*;

verus! {

/// The cache key under which the visit count is stored.
pub fn visit_count_key() -> (r: &'static str)
    ensures
        r@ == "nvisits"@,
{
    "nvisits"
}

/// How an attempt to read the cached count at the backend ended.
#[derive(PartialEq, Eq, Debug)]
pub enum CacheReadEvent {
    /// No connection to the backend could be made.
    Unreachable,
    /// The backend answered the read with an error (command failure).
    Failed,
    /// The backend answered: the bytes stored under the key, or nothing.
    Answered(Option<Vec<u8>>),
}

/// The accessor's collapse of a cache read: only a stored value that
/// parses as an integer yields a hit; an unreachable backend, a failed
/// command, an absent key and a malformed value are all a miss.
pub open spec fn spec_cache_read_outcome(event: CacheReadEvent) -> Option<i64> {
    match event {
        CacheReadEvent::Answered(Some(raw)) => if crate::decimal::is_decimal_i64(raw@) {
            Some(crate::decimal::decimal_value(raw@) as i64)
        } else {
            None
        },
        _ => None,
    }
}

/// Collapse a cache read into `Some` on a clean hit and `None` on
/// everything else, so a backend failure can never surface as an error.
pub fn cache_read_outcome(event: &CacheReadEvent) -> (r: Option<i64>)
    ensures
        r == spec_cache_read_outcome(*event),
{
    match event {
        CacheReadEvent::Answered(Some(raw)) => crate::decimal::parse_count(raw),
        _ => None,
    }
}

/// A populated value reads back: when the backend returns the bytes the
/// server stored for a count, the accessor serves exactly that count.
/// This is the byte-level half of the cache round trip.
pub proof fn lemma_populated_value_reads_back(raw: Vec<u8>, value: i64)
    requires
        raw@ == crate::decimal::spec_format_count(value),
    ensures
        spec_cache_read_outcome(CacheReadEvent::Answered(Some(raw))) == Some(value),
{
    crate::decimal::lemma_count_codec_round_trip(value);
}

/// The ledger's next step on a count read, once the cache has answered.
#[derive(Clone, Copy, PartialEq, Eq, Structural, Debug)]
pub enum CountReadStep {
    /// Cache hit: answer with this value, without touching the store.
    AnswerCached(i64),
    /// Cache miss: ask the durable store for the authoritative count.
    QueryStore,
}

/// The read side of cache-aside: a hit is answered at once, a miss goes
/// to the store of record.
pub fn plan_count_read(cached: Option<i64>) -> (r: CountReadStep)
    ensures
        r == match cached {
            Some(value) => CountReadStep::AnswerCached(value),
            None => CountReadStep::QueryStore,
        },
{
    match cached {
        Some(value) => CountReadStep::AnswerCached(value),
        None => CountReadStep::QueryStore,
    }
}

/// How the durable store answered a count query.
#[derive(Clone, Copy, PartialEq, Eq, Structural, Debug)]
pub enum StoreCountReply {
    /// The store answered with the count.
    Counted(i64),
    /// The store answered, but the aggregate row was empty.
    NoRow,
    /// The store did not answer (connection or query failure).
    Unavailable,
}

/// How a count read that had to go to the store concludes.
#[derive(Clone, Copy, PartialEq, Eq, Structural, Debug)]
pub enum CountReadOutcome {
    /// Answer with the count, after populating the cache best-effort
    /// with it under the given TTL.
    PopulateAndAnswer { count: i64, ttl_seconds: u64 },
    /// Surface a server error: the store of record failed, and no
    /// fallback value is invented.
    Fail,
}

/// The miss side of cache-aside: every served miss is answered with the
/// authoritative count after the best-effort populate under the fixed
/// TTL — an empty aggregate row means that count is zero; a store
/// failure is surfaced.
pub fn conclude_count_read(reply: &StoreCountReply) -> (r: CountReadOutcome)
    ensures
        r == match *reply {
            StoreCountReply::Counted(count) => CountReadOutcome::PopulateAndAnswer {
                count,
                ttl_seconds: crate::ledger::CACHE_TTL_SECONDS,
            },
            StoreCountReply::NoRow => CountReadOutcome::PopulateAndAnswer {
                count: 0,
                ttl_seconds: crate::ledger::CACHE_TTL_SECONDS,
            },
            StoreCountReply::Unavailable => CountReadOutcome::Fail,
        },
{
    match reply {
        StoreCountReply::Counted(count) => CountReadOutcome::PopulateAndAnswer {
            count: *count,
            ttl_seconds: crate::ledger::CACHE_TTL_SECONDS,
        },
        StoreCountReply::NoRow => CountReadOutcome::PopulateAndAnswer {
            count: 0,
            ttl_seconds: crate::ledger::CACHE_TTL_SECONDS,
        },
        StoreCountReply::Unavailable => CountReadOutcome::Fail,
    }
}

/// The ledger's step once the durable store has answered an append.
#[derive(Clone, Copy, PartialEq, Eq, Structural, Debug)]
pub enum RecordStep {
    /// The write committed: now, and only now, invalidate the cached
    /// count (best-effort), then report success.
    InvalidateThenSucceed,
    /// The write failed: surface the error and leave the cache alone —
    /// there is nothing stale to invalidate.
    Fail,
}

/// The write side of cache-aside: write-then-invalidate, never
/// invalidate-then-write, and never invalidate after a failed write.
pub fn conclude_record(appended: bool) -> (r: RecordStep)
    ensures
        r == if appended {
            RecordStep::InvalidateThenSucceed
        } else {
            RecordStep::Fail
        },
{
    if appended {
        RecordStep::InvalidateThenSucceed
    } else {
        RecordStep::Fail
    }
}

/// The identity recorded for a visit: the caller's network identity
/// when it is determinable, else the fixed sentinel.
pub fn identity_or_unknown(peer: Option<String>) -> (r: String)
    ensures
        r@ == match peer {
            Some(identity) => identity@,
            None => "unknown"@,
        },
{
    match peer {
        Some(identity) => identity,
        None => "unknown".to_owned(),
    }
}

} // verus!
