//! Time-bounded memoization of one value: an entry answers for five minutes
//! after it was fetched and is never invalidated otherwise.

use vstd::prelude::*;

verus! {

/// Seconds for which an entry answers.
pub const CACHE_TTL_SECS: u64 = 300;

/// Nanoseconds in a second.
pub const NANOS_PER_SEC: u64 = 1_000_000_000;

/// A reading of a monotonic clock, in nanoseconds since an anchor that the
/// process chose at its start.
#[derive(Clone, Copy, Debug, PartialEq, Eq, Structural)]
pub struct Instant {
    nanos: u64,
}

impl View for Instant {
    type V = int;

    closed spec fn view(&self) -> int {
        self.nanos as int
    }
}

/// Whole seconds from `earlier` to `now`; zero where `earlier` is the later
/// of the two.
pub open spec fn secs_since(now: int, earlier: int) -> int {
    if now >= earlier {
        (now - earlier) / (NANOS_PER_SEC as int)
    } else {
        0
    }
}

/// Whether a value fetched at `fetched_at` still answers at `now`.
pub open spec fn fresh_at(fetched_at: int, now: int) -> bool {
    secs_since(now, fetched_at) < CACHE_TTL_SECS
}

impl Instant {
    /// The reading `nanos` nanoseconds after the anchor.
    pub fn from_nanos(nanos: u64) -> (instant: Instant)
        ensures
            instant@ == nanos,
    {
        Instant { nanos }
    }

    /// Nanoseconds since the anchor.
    pub fn as_nanos(&self) -> (nanos: u64)
        ensures
            nanos == self@,
    {
        self.nanos
    }

    /// Whole seconds that have passed since `earlier`.
    pub fn secs_since(&self, earlier: &Instant) -> (secs: u64)
        ensures
            secs == secs_since(self@, earlier@),
    {
        if self.nanos >= earlier.nanos {
            (self.nanos - earlier.nanos) / NANOS_PER_SEC
        } else {
            0
        }
    }
}

/// A value and the moment it was fetched.
#[derive(Debug)]
pub struct CacheEntry<T> {
    pub value: T,
    pub fetched_at: Instant,
}

/// A cache of at most one value.
#[derive(Debug)]
pub struct ResponseCache<T> {
    entry: Option<CacheEntry<T>>,
}

impl<T> ResponseCache<T> {
    /// What the cache holds, fresh or stale.
    pub closed spec fn entry(self) -> Option<CacheEntry<T>> {
        self.entry
    }

    /// What a lookup at `now` answers.
    pub open spec fn lookup(self, now: Instant) -> Option<T> {
        match self.entry() {
            Some(entry) => if fresh_at(entry.fetched_at@, now@) {
                Some(entry.value)
            } else {
                None
            },
            None => None,
        }
    }

    /// An empty cache.
    pub fn new() -> (cache: ResponseCache<T>)
        ensures
            cache.entry().is_none(),
    {
        ResponseCache { entry: None }
    }

    /// Whether the cache holds nothing, not even a stale value.
    pub fn is_empty(&self) -> (empty: bool)
        ensures
            empty == self.entry().is_none(),
    {
        self.entry.is_none()
    }

    /// The cached value, where one was fetched less than five minutes before
    /// `now`. A miss leaves the stale entry in place.
    pub fn get(&self, now: Instant) -> (hit: Option<&T>)
        ensures
            hit.is_some() == self.lookup(now).is_some(),
            hit matches Some(value) ==> self.lookup(now) == Some(*value),
    {
        match &self.entry {
            Some(entry) => {
                if now.secs_since(&entry.fetched_at) < CACHE_TTL_SECS {
                    Some(&entry.value)
                } else {
                    None
                }
            },
            None => None,
        }
    }

    /// Replaces the entry by `value`, fetched at `now`, and hands the stored
    /// value back.
    pub fn put(&mut self, value: T, now: Instant) -> (stored: &T)
        ensures
            final(self).entry() == Some(CacheEntry { value, fetched_at: now }),
            *stored == value,
    {
        let entry = self.entry.insert(CacheEntry { value, fetched_at: now });
        &entry.value
    }
}

/// A value that was put at `fetched_at` answers every lookup made less than
/// five minutes later, and none made from five minutes on: of any lookups
/// after one fetch, those inside that window need no second fetch.
pub proof fn lemma_cache_ttl<T>(cache: ResponseCache<T>, value: T, fetched_at: Instant, now: Instant)
    requires
        cache.entry() == Some(CacheEntry { value, fetched_at }),
    ensures
        now@ < fetched_at@ + CACHE_TTL_SECS * NANOS_PER_SEC ==> cache.lookup(now) == Some(value),
        now@ >= fetched_at@ + CACHE_TTL_SECS * NANOS_PER_SEC ==> cache.lookup(now).is_none(),
{
}

} // verus!
