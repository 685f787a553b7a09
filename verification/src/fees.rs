//! The priority fee, in micro-lamports per compute unit, and its cache.
use vstd::prelude::*;

verus! {

/// The age, in seconds, up to which a cached fee is good.
pub const FEE_CACHE_TTL_S: u64 = 60;

/// The lowest fee: 2000 lamports per 200 000 compute units, which is what a
/// transaction with one instruction gets by default.
pub const MIN_FEE: u64 = 10_000;

/// What the base fee of a transaction, 5000 lamports, comes to per compute unit.
pub const BASE_FEE: u64 = 25_000;

/// The highest fee.
pub const MAX_FEE: u64 = 6 * BASE_FEE;

/// The greater of two fees.
pub open spec fn greater(a: int, b: int) -> int {
    if a >= b {
        a
    } else {
        b
    }
}

/// The fee to pay where the network asks for at least `solana_min_fee` and the
/// median paid of late is `median_fee`: the greatest of the lowest fee, the fee
/// asked for and 95 percent of the median, but no more than the highest fee.
pub open spec fn recommended_fee(solana_min_fee: u64, median_fee: u64) -> int {
    let wanted = greater(
        greater(MIN_FEE as int, solana_min_fee as int),
        (median_fee * 95) / 100,
    );
    if wanted <= MAX_FEE {
        wanted
    } else {
        MAX_FEE as int
    }
}

/// A fee that was fetched; zero where fetching it failed.
pub open spec fn fetched_or_zero<C>(fee: Result<u64, C>) -> u64 {
    match fee {
        Ok(fee) => fee,
        Err(_) => 0,
    }
}

/// What to do about a cached fee, `elapsed_s` seconds after the cache was made.
pub open spec fn needed_refresh(cache: FeeCache, elapsed_s: u64) -> FeeRefresh {
    if elapsed_s - cache.delta_s > FEE_CACHE_TTL_S {
        FeeRefresh::Needed
    } else {
        FeeRefresh::NotNeeded
    }
}

/// What to do about the cached fee.
#[derive(Clone, Copy, Debug, PartialEq, Eq, Structural)]
pub enum FeeRefresh {
    /// It is too old: fetch the fees anew and refresh it.
    Needed,
    /// It is still good.
    NotNeeded,
}

/// The fee that was recommended last, and when that was.
#[derive(Debug, PartialEq, Eq)]
pub struct FeeCache {
    pub priority_fee: u64,
    /// Seconds between the making of the cache and its last refresh.
    pub delta_s: u64,
}

impl Clone for FeeCache {
    fn clone(&self) -> (copy: Self)
        ensures
            copy == *self,
    {
        FeeCache { priority_fee: self.priority_fee, delta_s: self.delta_s }
    }
}

impl FeeCache {
    /// Whether the cached fee is one that can be recommended.
    pub open spec fn wf(self) -> bool {
        MIN_FEE <= self.priority_fee <= MAX_FEE
    }

    /// A cache that holds the lowest fee.
    pub fn new() -> (cache: Self)
        ensures
            cache.wf(),
            cache.priority_fee == MIN_FEE,
            cache.delta_s == 0,
    {
        FeeCache { priority_fee: MIN_FEE, delta_s: 0 }
    }

    /// Takes in what the network asks for and what was paid of late, `elapsed_s`
    /// seconds after the cache was made.
    pub fn refresh(&mut self, solana_min_fee: u64, median_fee: u64, elapsed_s: u64)
        requires
            median_fee * 95 <= u64::MAX,
        ensures
            final(self).wf(),
            final(self).priority_fee == recommended_fee(solana_min_fee, median_fee),
            final(self).delta_s == elapsed_s,
    {
        let mut fee: u64 = MIN_FEE;
        if solana_min_fee > fee {
            fee = solana_min_fee;
        }
        let share: u64 = (median_fee * 95) / 100;
        if share > fee {
            fee = share;
        }
        if fee > MAX_FEE {
            fee = MAX_FEE;
        }
        self.priority_fee = fee;
        self.delta_s = elapsed_s;
    }

    /// Whether the cached fee is too old, `elapsed_s` seconds after the cache was
    /// made.
    pub fn is_stale(&self, elapsed_s: u64) -> (stale: bool)
        requires
            self.delta_s <= elapsed_s,
        ensures
            stale <==> elapsed_s - self.delta_s > FEE_CACHE_TTL_S,
    {
        elapsed_s - self.delta_s > FEE_CACHE_TTL_S
    }

    /// Takes in what was fetched, `elapsed_s` seconds after the cache was made. What
    /// could not be fetched counts as zero.
    pub fn refresh_fetched<C, D>(
        &mut self,
        solana_min_fee: Result<u64, C>,
        median_fee: Result<u64, D>,
        elapsed_s: u64,
    )
        requires
            median_fee matches Ok(median) ==> median * 95 <= u64::MAX,
        ensures
            final(self).wf(),
            final(self).priority_fee == recommended_fee(
                fetched_or_zero(solana_min_fee),
                fetched_or_zero(median_fee),
            ),
            final(self).delta_s == elapsed_s,
    {
        let solana_min_fee: u64 = match solana_min_fee {
            Ok(fee) => fee,
            Err(_) => 0,
        };
        let median_fee: u64 = match median_fee {
            Ok(fee) => fee,
            Err(_) => 0,
        };
        self.refresh(solana_min_fee, median_fee, elapsed_s);
    }

    /// Says whether the cached fee has to be refreshed, `elapsed_s` seconds after the
    /// cache was made.
    pub fn needs_refresh(&self, elapsed_s: u64) -> (refresh: FeeRefresh)
        requires
            self.delta_s <= elapsed_s,
        ensures
            refresh == needed_refresh(*self, elapsed_s),
    {
        if self.is_stale(elapsed_s) {
            FeeRefresh::Needed
        } else {
            FeeRefresh::NotNeeded
        }
    }
}

/// A fee that was refreshed at `refreshed_s` is good for the time to live and not a
/// second longer.
pub proof fn refreshed_fee_lasts(cache: FeeCache, refreshed_s: u64, now_s: u64)
    requires
        cache.delta_s == refreshed_s,
        refreshed_s <= now_s,
    ensures
        now_s <= refreshed_s + FEE_CACHE_TTL_S ==> needed_refresh(cache, now_s)
            == FeeRefresh::NotNeeded,
        now_s > refreshed_s + FEE_CACHE_TTL_S ==> needed_refresh(cache, now_s)
            == FeeRefresh::Needed,
{
}

/// A recommended fee lies between the lowest and the highest fee, and is no less
/// than either of what it was made from, up to the highest fee.
pub proof fn fee_is_bounded(solana_min_fee: u64, median_fee: u64)
    ensures
        MIN_FEE <= recommended_fee(solana_min_fee, median_fee) <= MAX_FEE,
        solana_min_fee <= MAX_FEE ==> recommended_fee(solana_min_fee, median_fee) >= solana_min_fee,
        (median_fee * 95) / 100 <= MAX_FEE ==> recommended_fee(solana_min_fee, median_fee) >= (
        median_fee * 95) / 100,
{
}

/// When the network asks for more, or when more was paid, the fee does not fall.
pub proof fn fee_is_monotonic(
    solana_min_fee: u64,
    median_fee: u64,
    higher_min_fee: u64,
    higher_median_fee: u64,
)
    requires
        solana_min_fee <= higher_min_fee,
        median_fee <= higher_median_fee,
    ensures
        recommended_fee(solana_min_fee, median_fee) <= recommended_fee(
            higher_min_fee,
            higher_median_fee,
        ),
{
}

} // verus!
