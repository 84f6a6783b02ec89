use vstd::prelude::*;
use crate::keyed::{Keyed, find, put, value_of, unique_keys};

verus! {

/// A cached value and the instant (in seconds) from which it no longer counts.
#[derive(Debug)]
pub struct Stamped<V> {
    pub value: V,
    pub expires_at: u64,
}

/// A per-credential cache whose entries live for a fixed number of seconds
/// after they are stored. Expired entries behave as absent; the clock is
/// whatever the caller passes in. This is the get-or-fetch cache: `lookup`
/// first, and on a miss fetch and `store`.
#[derive(Debug)]
pub struct ResultCache<V> {
    pub ttl: u64,
    pub entries: Vec<Keyed<Stamped<V>>>,
}

/// The instant at which an entry stored at `now` expires.
pub open spec fn expiry(now: u64, ttl: u64) -> u64 {
    if now as int + ttl as int > u64::MAX {
        u64::MAX
    } else {
        (now + ttl) as u64
    }
}

impl<V> ResultCache<V> {
    /// The value and expiry stored under `key`, live or not.
    pub open spec fn entry(&self, key: Seq<char>) -> Option<Stamped<V>> {
        value_of(self.entries@, key)
    }

    /// The value under `key` that still counts at `now`.
    pub open spec fn live(&self, key: Seq<char>, now: u64) -> Option<V> {
        match self.entry(key) {
            Some(s) => if now < s.expires_at {
                Some(s.value)
            } else {
                None
            },
            None => None,
        }
    }

    /// Each credential has at most one entry.
    pub open spec fn wf(&self) -> bool {
        unique_keys(self.entries@)
    }

    /// `self` is `before` with `value` stored under `key` at `now`, and
    /// nothing else changed.
    pub open spec fn stored_from(&self, before: Self, key: Seq<char>, value: V, now: u64) -> bool {
        &&& self.ttl == before.ttl
        &&& self.entry(key) == Some(Stamped { value, expires_at: expiry(now, before.ttl) })
        &&& forall|k: Seq<char>| k != key ==> #[trigger] self.entry(k) == before.entry(k)
    }

    /// An empty cache whose entries live `ttl` seconds.
    pub fn new(ttl: u64) -> (r: Self)
        ensures
            r.wf(),
            r.ttl == ttl,
            forall|k: Seq<char>| #[trigger] r.entry(k) is None,
    {
        ResultCache { ttl, entries: Vec::new() }
    }

    /// The value cached under `key`, unless it is missing or expired at `now`.
    pub fn lookup(&self, key: &str, now: u64) -> (r: Option<&V>)
        ensures
            match r {
                Some(v) => self.live(key@, now) == Some(*v),
                None => self.live(key@, now) is None,
            },
    {
        match find(&self.entries, key) {
            Some(s) => if now < s.expires_at {
                Some(&s.value)
            } else {
                None
            },
            None => None,
        }
    }

    /// Stores `value` under `key` at `now`, replacing what was there.
    pub fn store(&mut self, key: String, value: V, now: u64)
        requires
            old(self).wf(),
        ensures
            final(self).wf(),
            final(self).stored_from(*old(self), key@, value, now),
    {
        let expires_at = if now <= u64::MAX - self.ttl {
            now + self.ttl
        } else {
            u64::MAX
        };
        put(&mut self.entries, key, Stamped { value, expires_at });
    }
}

/// Within the time-to-live of an entry, a lookup finds the stored value, so
/// the caller fetches nothing; from its expiry on, the lookup misses and the
/// caller fetches again.
pub proof fn cache_fetches_at_most_once_within_ttl<V>(
    before: ResultCache<V>,
    after: ResultCache<V>,
    key: Seq<char>,
    value: V,
    stored_at: u64,
    now: u64,
)
    requires
        after.stored_from(before, key, value, stored_at),
        stored_at <= now,
    ensures
        now < expiry(stored_at, before.ttl) ==> after.live(key, now) == Some(value),
        now >= expiry(stored_at, before.ttl) ==> after.live(key, now) is None,
{
}

} // verus!
