//! The fee that is recommended, and how long it lasts.
use vstd::prelude::*;

use crate::fees::{FeeCache, FeeRefresh};

verus! {

/// Whether `fee` is the fee to recommend where the network asks for `asked` and the
/// median paid is `median`: it lies between the lowest and the highest fee, is no less
/// than what is asked for and than 95 percent of the median as far as the highest fee
/// allows, and is no more than one of these calls for.
pub open spec fn is_least_sufficient(fee: int, asked: int, median: int) -> bool {
    let share = (median * 95) / 100;
    &&& 10_000 <= fee <= 150_000
    &&& fee >= asked || fee == 150_000
    &&& fee >= share || fee == 150_000
    &&& fee == 10_000 || fee == asked || fee == share || asked > 150_000 || share > 150_000
}

/// The recommended fee is no less and no more than it has to be: the lowest fee, what
/// the network asks for, 95 percent of the median, or the highest fee, and the highest
/// fee only where one of these comes to it.
pub proof fn refreshed_fee_is_exact(
    cache: &mut FeeCache,
    solana_min_fee: u64,
    median_fee: u64,
    elapsed_s: u64,
)
    requires
        call_ensures(FeeCache::refresh, (cache, solana_min_fee, median_fee, elapsed_s), ()),
    ensures
        ({
            let fee = final(cache).priority_fee as int;
            let share = (median_fee * 95) / 100;
            &&& fee == 10_000 || fee == solana_min_fee || fee == share || fee == 150_000
            &&& fee == 150_000 ==> solana_min_fee >= 150_000 || share >= 150_000
            &&& fee >= 10_000
            &&& fee <= 150_000
            &&& solana_min_fee <= 150_000 ==> fee >= solana_min_fee
            &&& share <= 150_000 ==> fee >= share
            &&& solana_min_fee >= 150_000 ==> fee == 150_000
            &&& share >= 150_000 ==> fee == 150_000
            &&& is_least_sufficient(fee, solana_min_fee as int, median_fee as int)
        }),
        final(cache).delta_s == elapsed_s,
{
}

/// What could not be fetched does not raise the fee: it counts as nothing, and what
/// was fetched counts in full.
pub proof fn fetched_fee_is_exact<C, D>(
    cache: &mut FeeCache,
    solana_min_fee: Result<u64, C>,
    median_fee: Result<u64, D>,
    elapsed_s: u64,
)
    requires
        call_ensures(
            FeeCache::refresh_fetched::<C, D>,
            (cache, solana_min_fee, median_fee, elapsed_s),
            (),
        ),
    ensures
        ({
            let fee = final(cache).priority_fee as int;
            match (solana_min_fee, median_fee) {
                (Ok(asked), Ok(median)) => is_least_sufficient(fee, asked as int, median as int),
                (Ok(asked), Err(_)) => is_least_sufficient(fee, asked as int, 0),
                (Err(_), Ok(median)) => is_least_sufficient(fee, 0, median as int),
                (Err(_), Err(_)) => fee == 10_000,
            }
        }),
        final(cache).delta_s == elapsed_s,
{
}

/// No two fees are both no less and no more than they have to be: the fee is fixed by
/// what is asked for and what was paid.
pub proof fn least_sufficient_fee_is_unique(fee: int, other: int, asked: int, median: int)
    requires
        is_least_sufficient(fee, asked, median),
        is_least_sufficient(other, asked, median),
        0 <= asked,
        0 <= median,
    ensures
        fee == other,
        fee >= 10_000 && fee <= 150_000,
        asked <= 150_000 ==> fee >= asked,
        (median * 95) / 100 <= 150_000 ==> fee >= (median * 95) / 100,
        fee == 10_000 || fee == asked || fee == (median * 95) / 100 || fee == 150_000,
        fee == 150_000 ==> asked >= 150_000 || (median * 95) / 100 >= 150_000,
{
}

/// Where more is asked for and more was paid, no less is recommended.
pub proof fn higher_fees_do_not_lower_it(
    cache: &mut FeeCache,
    other: &mut FeeCache,
    solana_min_fee: u64,
    median_fee: u64,
    higher_min_fee: u64,
    higher_median_fee: u64,
    elapsed_s: u64,
)
    requires
        call_ensures(FeeCache::refresh, (cache, solana_min_fee, median_fee, elapsed_s), ()),
        call_ensures(
            FeeCache::refresh,
            (other, higher_min_fee, higher_median_fee, elapsed_s),
            (),
        ),
        solana_min_fee <= higher_min_fee,
        median_fee <= higher_median_fee,
    ensures
        final(cache).priority_fee <= final(other).priority_fee,
{
}

/// A cache starts with the lowest fee, and a copy of one is no different from it.
pub proof fn new_cache_is_exact(cache: FeeCache, copy: FeeCache)
    requires
        call_ensures(FeeCache::new, (), cache),
        call_ensures(FeeCache::clone, (&cache,), copy),
    ensures
        cache.priority_fee == 10_000,
        cache.delta_s == 0,
        copy.priority_fee == cache.priority_fee,
        copy.delta_s == cache.delta_s,
{
}

/// A copy of any cache holds the same.
pub proof fn copied_cache_is_the_same(cache: &FeeCache, copy: FeeCache)
    requires
        call_ensures(FeeCache::clone, (cache,), copy),
    ensures
        copy.priority_fee == cache.priority_fee,
        copy.delta_s == cache.delta_s,
{
}

/// A fee lasts for sixty seconds after its refresh and has to be refreshed from then
/// on, and both ways to ask agree.
pub proof fn fee_lasts_a_minute(
    cache: &FeeCache,
    elapsed_s: u64,
    stale: bool,
    refresh: FeeRefresh,
)
    requires
        cache.delta_s <= elapsed_s,
        call_ensures(FeeCache::is_stale, (cache, elapsed_s), stale),
        call_ensures(FeeCache::needs_refresh, (cache, elapsed_s), refresh),
    ensures
        elapsed_s <= cache.delta_s + 60 ==> !stale && refresh == FeeRefresh::NotNeeded,
        elapsed_s > cache.delta_s + 60 ==> stale && refresh == FeeRefresh::Needed,
{
}

} // verus!
