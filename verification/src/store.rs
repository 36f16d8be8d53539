//! Model of the durable store: an append-only log of visit events.
//!
//! The store is the single source of truth. It offers exactly what the
//! ledger consumes: append one event, and count all events. Either call
//! fails when the store is unavailable, and such failures are always
//! surfaced to the caller.

use vstd::prelude::*;

verus! {

/// The errors the ledger surfaces. Cache-layer failures never appear
/// here: they degrade to a miss or a no-op inside the cache accessor.
#[derive(Clone, Copy, PartialEq, Eq, Structural, Debug)]
pub enum LedgerError {
    /// The durable store did not answer (connection or query failure).
    StoreUnavailable,
}

/// The durable store's state, as the ledger sees it.
///
/// `available` is the environment's doing: it says whether the store
/// answers. `events` is the authoritative append-only log; the visit
/// count is its length, never stored separately.
pub struct DurableStore {
    pub available: bool,
    pub events: Vec<String>,
}

/// Mathematical state of the store: availability plus the logged
/// identities.
pub struct StoreView {
    pub available: bool,
    pub events: Seq<Seq<char>>,
}

impl View for DurableStore {
    type V = StoreView;

    open spec fn view(&self) -> StoreView {
        StoreView { available: self.available, events: self.events.deep_view() }
    }
}

/// The authoritative visit count: how many events the store holds.
pub open spec fn count_of(s: StoreView) -> int {
    s.events.len() as int
}

/// The store after an append: one more event when it is available,
/// unchanged when the call failed.
pub open spec fn store_after_append(s: StoreView, identity: Seq<char>) -> StoreView {
    if s.available {
        StoreView { available: true, events: s.events.push(identity) }
    } else {
        s
    }
}

impl DurableStore {
    /// An available store with an empty log.
    pub fn new() -> (r: Self)
        ensures
            r@.available,
            r@.events == Seq::<Seq<char>>::empty(),
    {
        DurableStore { available: true, events: Vec::new() }
    }

    /// Append one visit event. Fails exactly when the store is
    /// unavailable, and then leaves the log unchanged.
    pub fn append(&mut self, identity: String) -> (r: Result<(), LedgerError>)
        ensures
            final(self)@ == store_after_append(old(self)@, identity@),
            r == if old(self)@.available {
                Ok::<(), LedgerError>(())
            } else {
                Err::<(), LedgerError>(LedgerError::StoreUnavailable)
            },
    {
        if self.available {
            self.events.push(identity);
            assert(self.events.deep_view() =~= old(self).events.deep_view().push(identity@));
            Ok(())
        } else {
            Err(LedgerError::StoreUnavailable)
        }
    }

    /// Count all visit events. Fails exactly when the store is
    /// unavailable; it never invents a fallback value.
    pub fn count_all(&self) -> (r: Result<i64, LedgerError>)
        requires
            self@.events.len() <= i64::MAX,
        ensures
            r == if self@.available {
                Ok::<i64, LedgerError>(count_of(self@) as i64)
            } else {
                Err::<i64, LedgerError>(LedgerError::StoreUnavailable)
            },
    {
        if self.available {
            Ok(self.events.len() as i64)
        } else {
            Err(LedgerError::StoreUnavailable)
        }
    }
}

} // verus!
