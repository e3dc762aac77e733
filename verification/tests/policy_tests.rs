use server::policy::{
    Tier, TierPolicy, CHALLENGE_CAPACITY, CHALLENGE_TTL_SECS, GET_CAPACITY, GET_TTL_SECS,
    MAX_EXPIRY_SECS, SEARCH_CAPACITY, SEARCH_TTI_SECS, SEARCH_TTL_SECS,
};

#[test]
fn challenge_tier_policy() {
    let p = Tier::Challenge.policy();
    assert_eq!(p.ttl_secs, 5 * 60);
    assert_eq!(p.tti_secs, None);
    assert_eq!(p.capacity, 100_000);
    assert_eq!(CHALLENGE_TTL_SECS, 300);
    assert_eq!(CHALLENGE_CAPACITY, 100_000);
}

#[test]
fn get_tier_policy() {
    let p = Tier::Get.policy();
    assert_eq!(p.ttl_secs, 7 * 24 * 60 * 60);
    assert_eq!(p.tti_secs, None);
    assert_eq!(p.capacity, 5_000_000);
    assert_eq!(GET_TTL_SECS, 604_800);
    assert_eq!(GET_CAPACITY, 5_000_000);
}

#[test]
fn search_tier_policy() {
    let p = Tier::Search.policy();
    assert_eq!(p.ttl_secs, 24 * 60 * 60);
    assert_eq!(p.tti_secs, Some(4 * 60 * 60));
    assert_eq!(p.capacity, 400_000);
    assert_eq!(SEARCH_TTL_SECS, 86_400);
    assert_eq!(SEARCH_TTI_SECS, 14_400);
    assert_eq!(SEARCH_CAPACITY, 400_000);
}

#[test]
fn longest_expiry_is_a_thousand_years() {
    assert_eq!(MAX_EXPIRY_SECS, 1000 * 365 * 24 * 3600);
}

#[test]
fn entry_expires_when_age_exceeds_ttl() {
    let p = Tier::Challenge.policy();
    assert!(!p.is_expired(1000, 1000, 1000));
    assert!(!p.is_expired(1000, 1000, 1299));
    assert!(!p.is_expired(1000, 1000, 1300));
    assert!(p.is_expired(1000, 1000, 1301));
}

#[test]
fn reads_do_not_extend_ttl() {
    let p = Tier::Challenge.policy();
    assert!(p.is_expired(0, 300, 301));
}

#[test]
fn tier_without_tti_ignores_idle_time() {
    let p = Tier::Get.policy();
    assert!(!p.is_expired(0, 0, 604_800));
    assert!(p.is_expired(0, 604_800, 604_801));
}

#[test]
fn search_entry_idle_for_over_four_hours_is_a_miss() {
    let p = Tier::Search.policy();
    let written: u64 = 0;
    let mut accessed: u64 = written;
    let mut now: u64 = written;
    for _ in 0..6 {
        now += 30 * 60;
        assert!(!p.is_expired(written, accessed, now));
        accessed = now;
    }
    assert_eq!(accessed, 3 * 60 * 60);
    now += 4 * 60 * 60;
    assert!(!p.is_expired(written, accessed, now));
    now += 60;
    assert!(now - written < p.ttl_secs);
    assert!(p.is_expired(written, accessed, now));
}

#[test]
fn search_entry_expires_by_age_even_when_read_often() {
    let p = Tier::Search.policy();
    assert!(!p.is_expired(0, 86_400, 86_400));
    assert!(p.is_expired(0, 86_400, 86_401));
}

#[test]
fn clock_before_the_write_is_not_expiry() {
    let p = TierPolicy { ttl_secs: 10, tti_secs: Some(5), capacity: 1 };
    assert!(!p.is_expired(100, 100, 50));
    assert!(p.is_expired(100, 100, 106));
    assert!(!p.is_expired(100, 100, 105));
}
