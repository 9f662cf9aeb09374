use mediator::accounts::AccountType;
use mediator::did_rate_limiter::{per_did_rate_limit_applies, DidRateLimiter};

#[test]
fn disabled_limiter_always_allows() {
    let mut limiter = DidRateLimiter::new(0, 10);
    for _ in 0..1000 {
        assert!(limiter.check("did:example:123"));
    }
}

#[test]
fn enabled_limiter_eventually_rejects() {
    // One request per second, with a burst of two.
    let mut limiter = DidRateLimiter::new(1, 2);
    let did = "did:example:456";
    assert!(limiter.check(did));
    assert!(limiter.check(did));
    // The burst is spent, and no time has passed.
    assert!(!limiter.check(did));
}

#[test]
fn different_dids_have_independent_limits() {
    let mut limiter = DidRateLimiter::new(1, 1);
    assert!(limiter.check("did:example:aaa"));
    assert!(!limiter.check("did:example:aaa"));
    assert!(limiter.check("did:example:bbb"));
}

#[test]
fn retain_recent_bounds_the_keyed_store() {
    let mut limiter = DidRateLimiter::new(1_000_000, 1_000_000);
    for i in 0..500 {
        assert!(limiter.check(&format!("did:example:{i}")));
    }
    assert!(limiter.len() > 0, "keys should be tracked before reclaim");
    // Every key has caught up a microsecond after its check.
    let checked = std::time::Instant::now();
    while checked.elapsed().as_micros() < 50 {}
    limiter.retain_recent();
    assert_eq!(
        limiter.len(),
        0,
        "retain_recent must reclaim idle keys (memory-DoS guard)"
    );
}

#[test]
fn disabled_limiter_reports_empty_and_noops_retain() {
    let mut limiter = DidRateLimiter::new(0, 10);
    assert!(limiter.is_empty());
    assert_eq!(limiter.len(), 0);
    limiter.retain_recent();
    assert!(limiter.is_empty());
}

#[test]
fn exemption_predicate_covers_admin_and_relay() {
    let some_hash = "abc123";
    // The administrative tiers are exempt, whatever the hash.
    assert!(!per_did_rate_limit_applies(AccountType::Admin, some_hash));
    assert!(!per_did_rate_limit_applies(AccountType::RootAdmin, some_hash));
    assert!(!per_did_rate_limit_applies(AccountType::Mediator, some_hash));
    // A relay session carries no DID.
    assert!(!per_did_rate_limit_applies(AccountType::Standard, ""));
    // An ordinary user is limited.
    assert!(per_did_rate_limit_applies(AccountType::Standard, some_hash));
    // So is an account of an unknown tier.
    assert!(per_did_rate_limit_applies(AccountType::Unknown, some_hash));
}

#[test]
fn every_did_has_its_own_burst() {
    let mut limiter = DidRateLimiter::new(1, 3);
    for did in ["did:example:a", "did:example:b", "did:example:c"] {
        for _ in 0..3 {
            assert!(limiter.check(did));
        }
    }
    assert!(!limiter.check("did:example:a"));
    assert_eq!(limiter.len(), 3);
}

#[test]
fn burst_of_zero_counts_as_one() {
    let mut limiter = DidRateLimiter::new(1, 0);
    assert!(limiter.check("did:example:a"));
    assert!(!limiter.check("did:example:a"));
}

#[test]
fn reclaiming_keeps_a_did_that_is_still_limited() {
    let mut limiter = DidRateLimiter::new(1, 1);
    assert!(limiter.check("did:example:a"));
    limiter.retain_recent();
    assert_eq!(limiter.len(), 1);
    assert!(!limiter.check("did:example:a"));
}

#[test]
fn reclaiming_forgets_who_was_idle_while_others_were_not() {
    let mut limiter = DidRateLimiter::new(1_000_000, 10);
    for i in 0..50 {
        assert!(limiter.check(&format!("did:example:idle{i}")));
    }
    let checked = std::time::Instant::now();
    while checked.elapsed().as_micros() < 50 {}
    assert!(limiter.check("did:example:active"));
    assert_eq!(limiter.len(), 51);
    limiter.retain_recent();
    assert!(limiter.len() <= 1);
}

#[test]
fn tracked_dids_are_the_distinct_ones_asked_for() {
    let mut limiter = DidRateLimiter::new(1, 1);
    for did in ["a", "b", "a", "a", "c", "b"] {
        limiter.check(did);
    }
    assert_eq!(limiter.len(), 3);
    assert!(!limiter.is_empty());
}

#[test]
fn exactly_the_burst_is_allowed_at_once() {
    for burst in [1, 2, 7] {
        let mut limiter = DidRateLimiter::new(1, burst);
        let mut allowed = 0;
        for i in 0..20 {
            limiter.check(&format!("did:example:other{i}"));
            if limiter.check("did:example:a") {
                allowed += 1;
            }
        }
        assert_eq!(allowed, burst);
    }
}

#[test]
fn a_refused_did_stays_refused_through_a_reclaim() {
    let mut limiter = DidRateLimiter::new(1, 3);
    while limiter.check("did:example:a") {}
    let before = limiter.len();
    limiter.retain_recent();
    assert!(limiter.len() <= before);
    assert!(!limiter.check("did:example:a"));
}
