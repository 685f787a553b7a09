//! The fee that is recommended, and how long it is kept.
use orbit_link::fees::{FeeCache, FeeRefresh, BASE_FEE, FEE_CACHE_TTL_S, MAX_FEE, MIN_FEE};

fn refreshed(solana_min_fee: u64, median_fee: u64) -> u64 {
    let mut cache = FeeCache::new();
    cache.refresh(solana_min_fee, median_fee, 0);
    cache.priority_fee
}

#[test]
fn constants_are_in_micro_lamports_per_unit() {
    assert_eq!(FEE_CACHE_TTL_S, 60);
    assert_eq!(MIN_FEE, 10_000);
    assert_eq!(BASE_FEE, 25_000);
    assert_eq!(MAX_FEE, 150_000);
}

#[test]
fn new_cache_holds_lowest_fee() {
    let cache = FeeCache::new();
    assert_eq!(cache, FeeCache { priority_fee: 10_000, delta_s: 0 });
    assert_eq!(cache.clone(), cache);
}

#[test]
fn lowest_fee_is_a_floor() {
    assert_eq!(refreshed(0, 0), 10_000);
    assert_eq!(refreshed(9_999, 10_526), 10_000);
}

#[test]
fn network_fee_wins_over_floor() {
    assert_eq!(refreshed(10_001, 0), 10_001);
    assert_eq!(refreshed(60_000, 50_000), 60_000);
}

#[test]
fn median_counts_for_95_percent() {
    assert_eq!(refreshed(0, 100_000), 95_000);
    // 95 percent of 10 529 is 10 002.55.
    assert_eq!(refreshed(0, 10_529), 10_002);
    assert_eq!(refreshed(94_999, 100_000), 95_000);
}

#[test]
fn highest_fee_is_a_ceiling() {
    assert_eq!(refreshed(150_000, 0), 150_000);
    assert_eq!(refreshed(150_001, 0), 150_000);
    assert_eq!(refreshed(u64::MAX, 0), 150_000);
    assert_eq!(refreshed(0, u64::MAX / 95), 150_000);
}

#[test]
fn fee_does_not_fall_when_more_is_asked() {
    let fees: Vec<u64> = vec![0, 5_000, 10_000, 50_000, 149_999, 150_000, 1_000_000];
    for i in 1..fees.len() {
        assert!(refreshed(fees[i - 1], 0) <= refreshed(fees[i], 0));
        assert!(refreshed(0, fees[i - 1]) <= refreshed(0, fees[i]));
    }
}

#[test]
fn cache_is_stale_after_its_time_to_live() {
    let mut cache = FeeCache::new();
    assert!(!cache.is_stale(0));
    assert!(!cache.is_stale(60));
    assert!(cache.is_stale(61));
    cache.refresh(0, 0, 100);
    assert_eq!(cache.delta_s, 100);
    assert!(!cache.is_stale(160));
    assert!(cache.is_stale(161));
}

#[test]
fn cache_takes_in_what_was_fetched() {
    let mut cache = FeeCache::new();
    cache.refresh_fetched::<&str, &str>(Err("down"), Ok(100_000), 7);
    assert_eq!(cache, FeeCache { priority_fee: 95_000, delta_s: 7 });
    assert_eq!(cache.needs_refresh(67), FeeRefresh::NotNeeded);
    assert_eq!(cache.needs_refresh(68), FeeRefresh::Needed);
    cache.refresh_fetched::<&str, &str>(Ok(40_000), Err("down"), 68);
    assert_eq!(cache, FeeCache { priority_fee: 40_000, delta_s: 68 });
}
