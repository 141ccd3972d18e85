//! Hit and miss counters of the typed read path.

use vstd::prelude::*;

verus! {

/// What the counters hold, as numbers.
pub struct StatsView {
    pub hits: nat,
    pub misses: nat,
}

/// The counter value after one more event: one more, and zero after the
/// largest value that the counter can hold.
pub open spec fn bump(n: nat) -> nat {
    if n >= usize::MAX {
        0
    } else {
        n + 1
    }
}

impl StatsView {
    /// The counters after one more hit.
    pub open spec fn hit(self) -> StatsView {
        StatsView { hits: bump(self.hits), misses: self.misses }
    }

    /// The counters after one more miss.
    pub open spec fn miss(self) -> StatsView {
        StatsView { hits: self.hits, misses: bump(self.misses) }
    }
}

/// Two counters: how many typed reads resolved to a value, and how many did
/// not. Nothing resets them; an increment at `usize::MAX` wraps around to
/// zero.
#[derive(Debug)]
pub struct Stats {
    cache_hit: usize,
    cache_miss: usize,
}

impl View for Stats {
    type V = StatsView;

    closed spec fn view(&self) -> StatsView {
        StatsView { hits: self.cache_hit as nat, misses: self.cache_miss as nat }
    }
}

impl Stats {
    /// Both counters at zero.
    pub fn new() -> (stats: Stats)
        ensures
            stats@ == (StatsView { hits: 0, misses: 0 }),
    {
        Stats { cache_hit: 0, cache_miss: 0 }
    }

    /// Counts one hit.
    pub fn cache_hit(&mut self)
        ensures
            final(self)@ == old(self)@.hit(),
    {
        self.cache_hit = self.cache_hit.wrapping_add(1);
    }

    /// Counts one miss.
    pub fn cache_miss(&mut self)
        ensures
            final(self)@ == old(self)@.miss(),
    {
        self.cache_miss = self.cache_miss.wrapping_add(1);
    }

    /// The number of hits counted.
    pub fn hits(&self) -> (n: usize)
        ensures
            n == self@.hits,
    {
        self.cache_hit
    }

    /// The number of misses counted.
    pub fn misses(&self) -> (n: usize)
        ensures
            n == self@.misses,
    {
        self.cache_miss
    }
}

} // verus!
