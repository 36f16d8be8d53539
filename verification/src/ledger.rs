//! The visit ledger: the cache-aside protocol over the two stores.
//!
//! A write appends to the durable store and then invalidates the cache
//! (write-then-invalidate, never the other way around). A read asks the
//! cache first; on a miss it counts at the durable store, populates the
//! cache best-effort with a fixed TTL, and returns the authoritative
//! count. Durable-store failures are surfaced; cache failures never are.

use vstd::prelude::*;

use crate::cache::{spec_after_invalidate, spec_after_set, spec_lookup, CacheAccessor, CacheEntry};
use crate::store::{count_of, store_after_append, DurableStore, LedgerError, StoreView};

verus! {

/// TTL given to every cache entry the ledger populates: a hard ceiling
/// on staleness, the safety net against a missed invalidation.
pub const CACHE_TTL_SECONDS: u64 = 600;

/// The ledger and everything it acts on: the durable store and the
/// cache in front of it.
pub struct VisitLedger {
    pub store: DurableStore,
    pub cache: CacheAccessor,
}

/// Mathematical state of the whole system.
pub struct LedgerView {
    pub store: StoreView,
    pub cache: CacheAccessor,
}

impl View for VisitLedger {
    type V = LedgerView;

    open spec fn view(&self) -> LedgerView {
        LedgerView { store: self.store@, cache: self.cache }
    }
}

/// Machine limit: the visit count must fit the integer type the
/// interfaces carry.
pub open spec fn wf(s: LedgerView) -> bool {
    s.store.events.len() <= i64::MAX
}

/// The key invariant of cache-aside: a cached value is never ahead of
/// the durable store. A cached count is some past count, and the log
/// only grows, so it is at most the current count.
pub open spec fn cache_coherent(s: LedgerView) -> bool {
    s.cache.entry matches CacheEntry::Valid { value, .. } ==> 0 <= value
        <= count_of(s.store)
}

/// Whether a count read at time `now` is served by the cache alone.
pub open spec fn read_hits(s: LedgerView, now: u64) -> bool {
    spec_lookup(s.cache, now) is Some
}

/// What a count read at time `now` returns: the cached value on a hit,
/// the authoritative count on a miss, and an error exactly when it
/// misses while the store is unavailable.
pub open spec fn read_result(s: LedgerView, now: u64) -> Result<i64, LedgerError> {
    match spec_lookup(s.cache, now) {
        Some(v) => Ok(v),
        None => if s.store.available {
            Ok(count_of(s.store) as i64)
        } else {
            Err(LedgerError::StoreUnavailable)
        },
    }
}

/// The system after a count read at time `now`: untouched on a hit or
/// on a store failure; on a served miss the cache is populated
/// best-effort with the authoritative count and the fixed TTL.
pub open spec fn state_after_read(s: LedgerView, now: u64) -> LedgerView {
    if !read_hits(s, now) && s.store.available {
        LedgerView {
            store: s.store,
            cache: spec_after_set(s.cache, count_of(s.store) as i64, CACHE_TTL_SECONDS, now),
        }
    } else {
        s
    }
}

/// What recording a visit returns: an error exactly when the durable
/// store is unavailable.
pub open spec fn record_result(s: LedgerView) -> Result<(), LedgerError> {
    if s.store.available {
        Ok(())
    } else {
        Err(LedgerError::StoreUnavailable)
    }
}

/// The system after recording a visit: on success the event is
/// appended and then the cache invalidated best-effort; on failure
/// nothing changes — there is nothing stale to invalidate, since the
/// write never happened.
pub open spec fn state_after_record(s: LedgerView, identity: Seq<char>) -> LedgerView {
    if s.store.available {
        LedgerView {
            store: store_after_append(s.store, identity),
            cache: spec_after_invalidate(s.cache),
        }
    } else {
        s
    }
}

impl VisitLedger {
    /// A ledger over the given stores, injected so that callers (and
    /// tests) choose the backends.
    pub fn new(store: DurableStore, cache: CacheAccessor) -> (r: Self)
        ensures
            r@.store == store@,
            r@.cache == cache,
    {
        VisitLedger { store, cache }
    }

    /// Record one visit: append the event to the durable store, then
    /// invalidate the cached count. The append happens before the
    /// invalidation; a failed append is surfaced and skips the
    /// invalidation; a failed invalidation is swallowed.
    pub fn record_visit(&mut self, identity: String) -> (r: Result<(), LedgerError>)
        requires
            old(self)@.store.events.len() < i64::MAX,
        ensures
            final(self)@ == state_after_record(old(self)@, identity@),
            r == record_result(old(self)@),
    {
        self.store.append(identity)?;
        self.cache.invalidate();
        Ok(())
    }

    /// Return the number of visits recorded so far: the cached count on
    /// a hit; on a miss the count from the durable store, after
    /// populating the cache best-effort with it. Fails exactly when the
    /// store must be asked and is unavailable.
    pub fn get_visit_count(&mut self, now: u64) -> (r: Result<i64, LedgerError>)
        requires
            wf(old(self)@),
            now + CACHE_TTL_SECONDS <= u64::MAX,
        ensures
            final(self)@ == state_after_read(old(self)@, now),
            r == read_result(old(self)@, now),
    {
        match self.cache.get(now) {
            Some(cached) => Ok(cached),
            None => {
                let count = self.store.count_all()?;
                self.cache.set_with_ttl(count, CACHE_TTL_SECONDS, now);
                Ok(count)
            },
        }
    }
}

/// Cache-miss fallback never fails count reads: with the cache backend
/// entirely unreachable, a read still returns the authoritative count
/// from the durable store, and does not error.
pub proof fn lemma_unreachable_cache_read_ok(s: LedgerView, now: u64)
    requires
        wf(s),
        !s.cache.reachable,
        s.store.available,
    ensures
        read_result(s, now) == Ok::<i64, LedgerError>(count_of(s.store) as i64),
{
}

/// Write-then-invalidate: once a successful `record_visit` has
/// completed its invalidation (the cache backend answered it), no read
/// can see the pre-write count — it either returns the incremented
/// total or surfaces a store failure, never a stale cached value.
pub proof fn lemma_record_then_read_fresh(s: LedgerView, identity: Seq<char>, now: u64)
    requires
        wf(s),
        s.store.events.len() < i64::MAX,
        s.store.available,
        s.cache.reachable,
    ensures
        !read_hits(state_after_record(s, identity), now),
        read_result(state_after_record(s, identity), now) == Ok::<i64, LedgerError>(
            (count_of(s.store) + 1) as i64,
        ),
{
}

/// A count read preserves well-formedness and cache coherence: it only
/// ever populates the cache with the current authoritative count.
pub proof fn lemma_read_preserves_coherence(s: LedgerView, now: u64)
    requires
        wf(s),
        cache_coherent(s),
    ensures
        wf(state_after_read(s, now)),
        cache_coherent(state_after_read(s, now)),
{
}

/// Recording a visit preserves well-formedness and cache coherence:
/// the log only grows, so a cached value that survives (because the
/// invalidation was swallowed) is still no fresher than the store.
pub proof fn lemma_record_preserves_coherence(s: LedgerView, identity: Seq<char>)
    requires
        wf(s),
        s.store.events.len() < i64::MAX,
        cache_coherent(s),
    ensures
        wf(state_after_record(s, identity)),
        cache_coherent(state_after_record(s, identity)),
{
}

/// The system after a whole run of count reads, one at each time in
/// `times`, with no visit recorded in between.
pub open spec fn state_after_reads(s: LedgerView, times: Seq<u64>) -> LedgerView
    decreases times.len(),
{
    if times.len() == 0 {
        s
    } else {
        state_after_read(state_after_reads(s, times.drop_last()), times.last())
    }
}

/// What the read at position `k` of such a run returns.
pub open spec fn read_result_at(s: LedgerView, times: Seq<u64>, k: int) -> Result<
    i64,
    LedgerError,
>
    recommends
        0 <= k < times.len(),
{
    read_result(state_after_reads(s, times.take(k)), times[k])
}

/// Count reads never touch the durable store's state.
proof fn lemma_reads_fix_the_store(s: LedgerView, times: Seq<u64>)
    ensures
        state_after_reads(s, times).store == s.store,
    decreases times.len(),
{
    if times.len() > 0 {
        lemma_reads_fix_the_store(s, times.drop_last());
    }
}

/// Count reads preserve cache coherence.
proof fn lemma_reads_preserve_coherence_trace(s: LedgerView, times: Seq<u64>)
    requires
        wf(s),
        cache_coherent(s),
    ensures
        cache_coherent(state_after_reads(s, times)),
    decreases times.len(),
{
    if times.len() > 0 {
        lemma_reads_preserve_coherence_trace(s, times.drop_last());
        lemma_reads_fix_the_store(s, times.drop_last());
        lemma_read_preserves_coherence(state_after_reads(s, times.drop_last()), times.last());
    }
}

/// A floor under what the system can answer: the store already holds at
/// least `m` events, and any value the cache can serve is at least `m`.
pub open spec fn read_lower_bound(s: LedgerView, m: int) -> bool {
    &&& count_of(s.store) >= m
    &&& match s.cache.entry {
        CacheEntry::Valid { value, .. } => s.cache.reachable ==> value >= m,
        CacheEntry::Absent => true,
    }
}

/// A served read puts its own result on the floor of the state it
/// leaves: it either echoed a cached value or cached the current count.
proof fn lemma_read_establishes_lower_bound(s: LedgerView, now: u64)
    requires
        wf(s),
        cache_coherent(s),
    ensures
        read_result(s, now) matches Ok(v) ==> read_lower_bound(state_after_read(s, now), v as int),
{
}

/// Later reads keep the floor and never answer below it.
proof fn lemma_read_keeps_lower_bound(s: LedgerView, now: u64, m: int)
    requires
        wf(s),
        read_lower_bound(s, m),
    ensures
        read_lower_bound(state_after_read(s, now), m),
        read_result(s, now) matches Ok(v) ==> v as int >= m,
{
}

/// The floor survives the reads from position `k` up to position `j`.
proof fn lemma_lower_bound_to(s: LedgerView, times: Seq<u64>, k: int, j: int, m: int)
    requires
        wf(s),
        0 <= k <= j <= times.len(),
        read_lower_bound(state_after_reads(s, times.take(k)), m),
    ensures
        read_lower_bound(state_after_reads(s, times.take(j)), m),
    decreases j - k,
{
    if k < j {
        lemma_reads_fix_the_store(s, times.take(k));
        lemma_read_keeps_lower_bound(state_after_reads(s, times.take(k)), times[k], m);
        assert(times.take(k + 1).drop_last() =~= times.take(k));
        lemma_lower_bound_to(s, times, k + 1, j, m);
    }
}

/// Monotonicity: with no visit recorded in between, repeated count
/// reads never go backwards — whenever two reads of a run both answer,
/// the later one returns at least what the earlier one did, whatever
/// the read times are and wherever each read left the cache.
pub proof fn lemma_repeated_reads_monotonic(s: LedgerView, times: Seq<u64>, i: int, j: int)
    requires
        wf(s),
        cache_coherent(s),
        0 <= i <= j < times.len(),
    ensures
        match (read_result_at(s, times, i), read_result_at(s, times, j)) {
            (Ok(earlier), Ok(later)) => earlier <= later,
            _ => true,
        },
{
    let at_i = state_after_reads(s, times.take(i));
    lemma_reads_fix_the_store(s, times.take(i));
    lemma_reads_preserve_coherence_trace(s, times.take(i));
    if i < j {
        match read_result(at_i, times[i]) {
            Ok(earlier) => {
                lemma_read_establishes_lower_bound(at_i, times[i]);
                assert(times.take(i + 1).drop_last() =~= times.take(i));
                lemma_lower_bound_to(s, times, i + 1, j, earlier as int);
                lemma_reads_fix_the_store(s, times.take(j));
                lemma_read_keeps_lower_bound(
                    state_after_reads(s, times.take(j)),
                    times[j],
                    earlier as int,
                );
            },
            Err(_) => {},
        }
    }
}

} // verus!
