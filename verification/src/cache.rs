//! Model of the cache layer: one cached counter value with a TTL,
//! behind a backend that may be unreachable.
//!
//! The accessor collapses every backend failure into a miss (for reads)
//! or a silent no-op (for writes and deletes), so the caller never sees
//! a cache-layer error.

use vstd::prelude::*;

verus! {

/// State of the single cache entry, as the backend holds it.
#[derive(Clone, Copy, PartialEq, Eq, Structural, Debug)]
pub enum CacheEntry {
    /// No value is cached (never set, deleted, or expired and evicted).
    Absent,
    /// A value is cached; it is served only while `now < expires_at`.
    Valid { value: i64, expires_at: u64 },
}

/// The cache accessor together with the backend state it faces.
///
/// `reachable` is the environment's doing: it says whether the backend
/// answers at all. The accessor's operations tolerate `reachable ==
/// false` without raising an error.
#[derive(Clone, Copy, PartialEq, Eq, Structural, Debug)]
pub struct CacheAccessor {
    pub reachable: bool,
    pub entry: CacheEntry,
}

/// What a read at time `now` returns: a clean hit gives the value, and
/// an unreachable backend, an absent entry or an expired entry all give
/// `None`.
pub open spec fn spec_lookup(c: CacheAccessor, now: u64) -> Option<i64> {
    match c.entry {
        CacheEntry::Valid { value, expires_at } => if c.reachable && now < expires_at {
            Some(value)
        } else {
            None
        },
        CacheEntry::Absent => None,
    }
}

/// The cache after a best-effort populate at time `now`: the entry is
/// overwritten when the backend answers, untouched when it does not.
pub open spec fn spec_after_set(c: CacheAccessor, value: i64, ttl_seconds: u64, now: u64) -> CacheAccessor {
    if c.reachable {
        CacheAccessor {
            reachable: true,
            entry: CacheEntry::Valid { value, expires_at: (now + ttl_seconds) as u64 },
        }
    } else {
        c
    }
}

/// The cache after a best-effort invalidation: the entry is deleted
/// when the backend answers, untouched when it does not.
pub open spec fn spec_after_invalidate(c: CacheAccessor) -> CacheAccessor {
    if c.reachable {
        CacheAccessor { reachable: true, entry: CacheEntry::Absent }
    } else {
        c
    }
}

impl CacheAccessor {
    /// A reachable backend with nothing cached.
    pub fn new() -> (r: Self)
        ensures
            r == (CacheAccessor { reachable: true, entry: CacheEntry::Absent }),
    {
        CacheAccessor { reachable: true, entry: CacheEntry::Absent }
    }

    /// Read the cached count at time `now`. Returns `Some` only on a
    /// clean, unexpired hit; every failure mode is a miss.
    pub fn get(&self, now: u64) -> (r: Option<i64>)
        ensures
            r == spec_lookup(*self, now),
    {
        if !self.reachable {
            return None;
        }
        match self.entry {
            CacheEntry::Absent => None,
            CacheEntry::Valid { value, expires_at } => {
                if now < expires_at {
                    Some(value)
                } else {
                    None
                }
            },
        }
    }

    /// Best-effort populate: cache `value` until `now + ttl_seconds`.
    /// An unreachable backend makes this a silent no-op.
    pub fn set_with_ttl(&mut self, value: i64, ttl_seconds: u64, now: u64)
        requires
            now + ttl_seconds <= u64::MAX,
        ensures
            *final(self) == spec_after_set(*old(self), value, ttl_seconds, now),
    {
        if self.reachable {
            self.entry = CacheEntry::Valid { value, expires_at: now + ttl_seconds };
        }
    }

    /// Best-effort invalidation: delete the cached entry. An
    /// unreachable backend makes this a silent no-op.
    pub fn invalidate(&mut self)
        ensures
            *final(self) == spec_after_invalidate(*old(self)),
    {
        if self.reachable {
            self.entry = CacheEntry::Absent;
        }
    }
}

/// Round trip: a populated value is served back by any read that
/// happens before its TTL elapses.
pub proof fn lemma_cache_round_trip(c: CacheAccessor, value: i64, ttl_seconds: u64, set_at: u64, read_at: u64)
    requires
        c.reachable,
        set_at + ttl_seconds <= u64::MAX,
        read_at < set_at + ttl_seconds,
    ensures
        spec_lookup(spec_after_set(c, value, ttl_seconds, set_at), read_at) == Some(value),
{
}

/// Invalidation clears: right after an invalidation, a read misses,
/// whatever was cached before. When the backend answers the entry is
/// gone; when it does not, the read cannot reach the entry either.
pub proof fn lemma_invalidate_clears(c: CacheAccessor, read_at: u64)
    ensures
        spec_lookup(spec_after_invalidate(c), read_at) is None,
{
}

} // verus!
