use govparticipation::health::{build_health_report, OverallStatus, SyncStatus};
use govparticipation::router::{FetchOutcome, RequestAction, RouterCache};

#[test]
fn concurrent_requests_make_one_fetch() {
    let mut c: RouterCache<u32> = RouterCache::new();
    let mut fetches = 0;
    for _ in 0..5 {
        if c.begin_request("drep:A", 10) == RequestAction::Fetch {
            fetches += 1;
        }
    }
    assert_eq!(fetches, 1);
    let st = c.cache_stats();
    assert_eq!(st.hits + st.misses, 5);
    assert_eq!(st.misses, 1);
    assert_eq!(c.complete_fetch("drep:A".to_string(), Some(7), 10, Some(60)), FetchOutcome::Stored);
    assert_eq!(c.get("drep:A"), Some(&7));
    assert_eq!(c.cache_stats().entries, 1);
}

#[test]
fn fresh_value_is_served_and_expired_one_refetched() {
    let mut c: RouterCache<u32> = RouterCache::new();
    assert_eq!(c.begin_request("k", 100), RequestAction::Fetch);
    c.complete_fetch("k".to_string(), Some(1), 100, Some(30));
    assert_eq!(c.begin_request("k", 129), RequestAction::Hit);
    assert_eq!(c.get("k"), Some(&1));
    assert_eq!(c.begin_request("k", 130), RequestAction::Fetch);
    assert_eq!(c.begin_request("k", 131), RequestAction::Attach);
    c.complete_fetch("k".to_string(), Some(2), 131, Some(30));
    assert_eq!(c.get("k"), Some(&2));
    assert_eq!(c.cache_stats().entries, 1);
    assert_eq!(c.begin_request("k", 140), RequestAction::Hit);
    let st = c.cache_stats();
    assert_eq!((st.hits, st.misses), (3, 2));
    assert_eq!(st.hit_rate_basis_points(), 6000);
}

#[test]
fn failures_serve_stale_or_propagate() {
    let mut c: RouterCache<u32> = RouterCache::new();
    assert_eq!(c.begin_request("cold", 0), RequestAction::Fetch);
    assert_eq!(c.complete_fetch("cold".to_string(), None, 0, None), FetchOutcome::Failed);
    assert_eq!(c.get("cold"), None);
    assert_eq!(c.begin_request("cold", 1), RequestAction::Fetch);
    c.complete_fetch("warm".to_string(), Some(5), 0, Some(1));
    assert_eq!(c.begin_request("warm", 5), RequestAction::Fetch);
    assert_eq!(c.complete_fetch("warm".to_string(), None, 5, Some(1)), FetchOutcome::ServedStale);
    assert_eq!(c.get("warm"), Some(&5));
}

#[test]
fn entry_without_ttl_never_expires() {
    let mut c: RouterCache<u32> = RouterCache::new();
    c.begin_request("k", 0);
    c.complete_fetch("k".to_string(), Some(9), 0, None);
    assert_eq!(c.begin_request("k", u64::MAX), RequestAction::Hit);
}

#[test]
fn hit_rate_is_zero_before_requests() {
    let c: RouterCache<u32> = RouterCache::new();
    let st = c.cache_stats();
    assert!(st.enabled);
    assert_eq!(st.hit_rate_basis_points(), 0);
}

#[test]
fn failing_probe_degrades_even_when_store_connected() {
    let c: RouterCache<u32> = RouterCache::new();
    let sync = SyncStatus {
        connected: true,
        latest_block_number: Some(42),
        latest_block_slot: Some(1000),
        latest_block_time: Some(5),
        total_blocks: Some(43),
        latest_epoch: Some(3),
    };
    let r = build_health_report(Some(false), Some(sync), c.cache_stats());
    assert_eq!(r.status, OverallStatus::Degraded);
    assert_eq!(r.status.as_str(), "degraded");
    assert!(r.sync.connected);
    assert!(r.sync.synced);
    let r = build_health_report(None, Some(sync), c.cache_stats());
    assert_eq!(r.status, OverallStatus::Degraded);
    let r = build_health_report(Some(true), None, c.cache_stats());
    assert_eq!(r.status, OverallStatus::Healthy);
    assert_eq!(r.status.as_str(), "healthy");
    assert!(r.sync.failed);
    assert!(!r.sync.connected);
}
