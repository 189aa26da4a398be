//! The cache layer: freshness of the single persisted usage snapshot is
//! computed on demand from its timestamp and a TTL configured in minutes.
//!
//! The store itself is a file owned by the shell of the program; this module
//! receives what a read of the store produced (`CacheReadOutcome`) and makes
//! every decision: status classification, the entry written on a fetch, and
//! invalidation. Corruption and absence are ordinary outcomes, never errors.

use vstd::prelude::*;
use crate::clock;
use crate::models::{CacheEntry, CacheStatus, UsageData};

verus! {

/// What one attempt to read the persisted cache store produced.
#[derive(Debug)]
pub enum CacheReadOutcome {
    /// No entry is persisted.
    Absent,
    /// An entry exists but could not be read.
    Unreadable,
    /// An entry was read but could not be decoded.
    Undecodable,
    /// The persisted entry, decoded.
    Entry(CacheEntry),
}

/// The cache layer, configured with a time-to-live in minutes.
pub struct Cache {
    pub ttl_minutes: u64,
}

/// The status the cache reports for a read outcome at UTC second `now`:
/// absence is `Missing`, an unreadable or undecodable entry is `Corrupted`,
/// and an entry is `Fresh` exactly when its age is at most the TTL.
pub open spec fn spec_status(ttl_minutes: u64, read: CacheReadOutcome, now: i64) -> CacheStatus {
    match read {
        CacheReadOutcome::Absent => CacheStatus::Missing,
        CacheReadOutcome::Unreadable => CacheStatus::Corrupted,
        CacheReadOutcome::Undecodable => CacheStatus::Corrupted,
        CacheReadOutcome::Entry(e) => {
            if now - e.timestamp > ttl_minutes * 60 {
                CacheStatus::Expired
            } else {
                CacheStatus::Fresh(e.data)
            }
        },
    }
}

impl Cache {
    /// A cache layer with the given TTL in minutes.
    pub fn new(ttl_minutes: u64) -> (c: Self)
        ensures
            c.ttl_minutes == ttl_minutes,
    {
        Cache { ttl_minutes }
    }

    /// Classifies a read outcome against the TTL at UTC second `now`.
    pub fn status_at(&self, read: CacheReadOutcome, now: i64) -> (r: CacheStatus)
        ensures
            r == spec_status(self.ttl_minutes, read, now),
    {
        match read {
            CacheReadOutcome::Absent => CacheStatus::Missing,
            CacheReadOutcome::Unreadable => CacheStatus::Corrupted,
            CacheReadOutcome::Undecodable => CacheStatus::Corrupted,
            CacheReadOutcome::Entry(e) => {
                let age: i128 = now as i128 - e.timestamp as i128;
                let ttl_secs: i128 = self.ttl_minutes as i128 * 60;
                if age > ttl_secs {
                    CacheStatus::Expired
                } else {
                    CacheStatus::Fresh(e.data)
                }
            },
        }
    }

    /// Classifies a read outcome against the TTL at the present moment; the
    /// result is the status for whatever second the clock reported.
    pub fn status(&self, read: CacheReadOutcome) -> (r: CacheStatus)
        ensures
            exists|now: i64| r == spec_status(self.ttl_minutes, read, now),
    {
        let now = clock::now_timestamp();
        self.status_at(read, now)
    }

    /// Whether the status at `now` would be `Fresh`.
    pub fn is_fresh_at(&self, read: &CacheReadOutcome, now: i64) -> (r: bool)
        ensures
            r == (spec_status(self.ttl_minutes, *read, now) is Fresh),
    {
        match read {
            CacheReadOutcome::Entry(e) => {
                let age: i128 = now as i128 - e.timestamp as i128;
                let ttl_secs: i128 = self.ttl_minutes as i128 * 60;
                age <= ttl_secs
            },
            _ => false,
        }
    }

    /// The entry that replaces the persisted one on a successful fetch,
    /// stamped with the present moment. The shell persists it wholesale.
    pub fn set(&self, data: UsageData) -> (e: CacheEntry)
        ensures
            e.data == data,
    {
        let now = clock::now_timestamp();
        CacheEntry { data, timestamp: now }
    }

    /// The entry that replaces the persisted one, stamped with an explicit
    /// UTC second.
    pub fn entry_at(&self, data: UsageData, now: i64) -> (e: CacheEntry)
        ensures
            e.data == data,
            e.timestamp == now,
    {
        CacheEntry { data, timestamp: now }
    }

    /// The store content after an invalidation: always absent, whatever was
    /// persisted before. Invalidating an absent store is not an error.
    pub fn invalidate(&self, store: CacheReadOutcome) -> (r: CacheReadOutcome)
        ensures
            r is Absent,
    {
        let _ = store;
        CacheReadOutcome::Absent
    }

    /// The timestamp of the persisted entry, if one can be decoded;
    /// independent of freshness, for display only.
    pub fn last_updated(&self, read: &CacheReadOutcome) -> (r: Option<i64>)
        ensures
            match read {
                CacheReadOutcome::Entry(e) => r == Some(e.timestamp),
                _ => r is None,
            },
    {
        match read {
            CacheReadOutcome::Entry(e) => Some(e.timestamp),
            _ => None,
        }
    }
}

/// Invalidation is idempotent: a second invalidation finds the store absent
/// and leaves it absent, and no store state makes invalidation fail — the
/// resulting content is `Absent` for every prior content.
pub proof fn lemma_invalidate_idempotent(store: CacheReadOutcome)
    ensures
        spec_invalidated(spec_invalidated(store)) == spec_invalidated(store),
        spec_invalidated(store) is Absent,
{
}

/// The store content invalidation leaves behind.
pub open spec fn spec_invalidated(store: CacheReadOutcome) -> CacheReadOutcome {
    CacheReadOutcome::Absent
}

/// The TTL boundary: an entry fetched `ttl + 1` seconds ago is `Expired`,
/// one fetched `ttl - 1` seconds ago is `Fresh`, for every TTL and moment.
pub proof fn lemma_ttl_boundary(ttl_minutes: u64, data: UsageData, now: i64)
    requires
        i64::MIN + ttl_minutes * 60 + 1 <= now,
        now < i64::MAX,
    ensures
        ({
            let stale = CacheEntry { data, timestamp: (now - ttl_minutes * 60 - 1) as i64 };
            spec_status(ttl_minutes, CacheReadOutcome::Entry(stale), now) is Expired
        }),
        ({
            let fresh = CacheEntry { data, timestamp: (now - ttl_minutes * 60 + 1) as i64 };
            spec_status(ttl_minutes, CacheReadOutcome::Entry(fresh), now) is Fresh
        }),
{
}

/// Absence and corruption are classified independently of the TTL and the
/// moment: an absent store is `Missing` and an unreadable or undecodable one
/// is `Corrupted`, never a crash and never `Fresh`.
pub proof fn lemma_missing_corrupted(ttl_minutes: u64, now: i64)
    ensures
        spec_status(ttl_minutes, CacheReadOutcome::Absent, now) is Missing,
        spec_status(ttl_minutes, CacheReadOutcome::Unreadable, now) is Corrupted,
        spec_status(ttl_minutes, CacheReadOutcome::Undecodable, now) is Corrupted,
{
}

} // verus!
