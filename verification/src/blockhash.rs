//! A recent blockhash that is fetched again only when it has grown old.

use crate::time::TimeSpan;
use vstd::prelude::*;

verus! {

/// The cache as plain values: the blockhash, how long it stays fresh, and
/// the clock reading at which it was fetched, both in nanoseconds.
pub struct CacheView {
    pub blockhash: [u8; 32],
    pub ttl: nat,
    pub fetched_at: nat,
}

impl CacheView {
    /// Whether the blockhash is too old to be used at the clock reading
    /// `now`: more than the time to live has passed since it was fetched.
    pub open spec fn stale_at(self, now: nat) -> bool {
        now - self.fetched_at > self.ttl
    }

    /// The cache after `blockhash` was fetched at the clock reading `now`.
    pub open spec fn refreshed(self, blockhash: [u8; 32], now: nat) -> CacheView {
        CacheView { blockhash, ttl: self.ttl, fetched_at: now }
    }
}

/// The latest blockhash known, with the time at which it was fetched.
#[derive(Clone, Copy, Debug)]
pub struct LatestBlockHash {
    blockhash: [u8; 32],
    ttl: TimeSpan,
    last_fetch_stamp: TimeSpan,
}

impl View for LatestBlockHash {
    type V = CacheView;

    closed spec fn view(&self) -> CacheView {
        CacheView {
            blockhash: self.blockhash,
            ttl: self.ttl@,
            fetched_at: self.last_fetch_stamp@,
        }
    }
}

impl LatestBlockHash {
    /// A cache that holds `blockhash`, fetched at the clock reading `now`,
    /// and keeps each blockhash for `ttl`.
    pub fn new(blockhash: [u8; 32], ttl: TimeSpan, now: TimeSpan) -> (cache: LatestBlockHash)
        ensures
            cache@ == (CacheView { blockhash, ttl: ttl@, fetched_at: now@ }),
    {
        LatestBlockHash { blockhash, ttl, last_fetch_stamp: now }
    }

    /// Whether a new blockhash has to be fetched before the next read at the
    /// clock reading `now`.
    pub fn needs_refresh(&self, now: &TimeSpan) -> (stale: bool)
        ensures
            stale == self@.stale_at(now@),
    {
        now.saturating_sub(&self.last_fetch_stamp).longer_than(&self.ttl)
    }

    /// Takes in a blockhash that was fetched at the clock reading `now`. No
    /// read up to `ttl` after `now` asks for another.
    pub fn refresh(&mut self, blockhash: [u8; 32], now: TimeSpan)
        ensures
            final(self)@ == old(self)@.refreshed(blockhash, now@),
            forall|later: nat| later <= now@ + old(self)@.ttl ==> !final(self)@.stale_at(later),
    {
        self.blockhash = blockhash;
        self.last_fetch_stamp = now;
    }

    /// The cached blockhash if it can still be used at the clock reading
    /// `now`, and nothing if a new one has to be fetched first.
    pub fn get_latest_blockhash(&self, now: &TimeSpan) -> (hash: Option<[u8; 32]>)
        ensures
            hash == if self@.stale_at(now@) {
                None
            } else {
                Some(self@.blockhash)
            },
    {
        if self.needs_refresh(now) {
            None
        } else {
            Some(self.blockhash)
        }
    }
}

/// After a refresh, every read within the time to live is served from the
/// cache, also a read whose clock reading lies before the refresh; the first
/// read after that asks for one refresh.
pub proof fn lemma_one_refresh_per_ttl(cache: CacheView, blockhash: [u8; 32], now: nat, later: nat)
    ensures
        later <= now + cache.ttl ==> !cache.refreshed(blockhash, now).stale_at(later),
        later > now + cache.ttl ==> cache.refreshed(blockhash, now).stale_at(later),
        cache.refreshed(blockhash, now).blockhash == blockhash,
        cache.refreshed(blockhash, now).ttl == cache.ttl,
{
}

/// Of two reads in a row, the second asks for no refresh where the first
/// brought one and less than the time to live lies between them.
pub proof fn lemma_no_refresh_per_read(
    cache: CacheView,
    blockhash: [u8; 32],
    first: nat,
    second: nat,
)
    requires
        cache.stale_at(first),
        first <= second,
        second - first <= cache.ttl,
    ensures
        !cache.refreshed(blockhash, first).stale_at(second),
{
}

} // verus!
