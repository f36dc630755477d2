use chat_app::cache::{MembershipCache, Resolution, CACHE_TTL_NANOS};

#[test]
fn empty_cache_misses() {
    let cache = MembershipCache::new();
    assert_eq!(cache.resolve(1, 0), Resolution::Miss);
}

#[test]
fn ttl_is_one_second() {
    assert_eq!(CACHE_TTL_NANOS, 1_000_000_000);
}

#[test]
fn refreshed_entry_hits_inside_the_window() {
    let mut cache = MembershipCache::new();
    cache.refresh(1, vec![10, 11, 12], 5_000);
    assert_eq!(cache.resolve(1, 5_000), Resolution::Hit(vec![10, 11, 12]));
    assert_eq!(cache.resolve(1, 5_000 + 999_999_999), Resolution::Hit(vec![10, 11, 12]));
}

#[test]
fn two_resolutions_inside_the_window_agree() {
    let mut cache = MembershipCache::new();
    cache.refresh(7, vec![1, 2, 3], 100);
    let first = cache.resolve(7, 200);
    let second = cache.resolve(7, 900_000_000);
    assert_eq!(first, Resolution::Hit(vec![1, 2, 3]));
    assert_eq!(first, second);
}

#[test]
fn entry_is_stale_at_the_ttl() {
    let mut cache = MembershipCache::new();
    cache.refresh(1, vec![10], 5_000);
    assert_eq!(cache.resolve(1, 5_000 + 1_000_000_000), Resolution::Miss);
    assert_eq!(cache.resolve(1, u64::MAX), Resolution::Miss);
}

#[test]
fn clock_before_the_fetch_counts_as_age_zero() {
    let mut cache = MembershipCache::new();
    cache.refresh(1, vec![10], 5_000);
    assert_eq!(cache.resolve(1, 0), Resolution::Hit(vec![10]));
}

#[test]
fn stale_entry_is_replaced_as_a_whole() {
    let mut cache = MembershipCache::new();
    cache.refresh(1, vec![10, 11], 0);
    assert_eq!(cache.resolve(1, 2_000_000_000), Resolution::Miss);
    cache.refresh(1, vec![12], 2_000_000_000);
    assert_eq!(cache.resolve(1, 2_000_000_001), Resolution::Hit(vec![12]));
}

#[test]
fn conversations_do_not_share_entries() {
    let mut cache = MembershipCache::new();
    cache.refresh(1, vec![10], 0);
    cache.refresh(2, vec![20, 21], 0);
    assert_eq!(cache.resolve(1, 1), Resolution::Hit(vec![10]));
    assert_eq!(cache.resolve(2, 1), Resolution::Hit(vec![20, 21]));
    assert_eq!(cache.resolve(3, 1), Resolution::Miss);
}

#[test]
fn empty_member_list_is_a_hit() {
    let mut cache = MembershipCache::new();
    cache.refresh(1, vec![], 0);
    assert_eq!(cache.resolve(1, 1), Resolution::Hit(vec![]));
}

#[test]
fn freshness_of_an_instant() {
    assert!(MembershipCache::fresh(100, 100));
    assert!(MembershipCache::fresh(100, 1_000_000_099));
    assert!(!MembershipCache::fresh(100, 1_000_000_100));
    assert!(MembershipCache::fresh(100, 50));
}
