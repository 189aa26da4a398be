use copilot_usage::cache::{Cache, CacheReadOutcome};
use copilot_usage::models::{CacheEntry, CacheStatus, TimePeriod, UsageData};
use copilot_usage::ui::async_handler::build_cache_info;

fn snapshot(user: &str) -> UsageData {
    UsageData {
        time_period: TimePeriod { year: 2026, month: Some(1), day: None },
        user: user.to_string(),
        usage_items: vec![],
    }
}

fn entry_at(ts: i64) -> CacheReadOutcome {
    CacheReadOutcome::Entry(CacheEntry { data: snapshot("u"), timestamp: ts })
}

#[test]
fn ttl_boundary_one_second_past_is_expired() {
    let cache = Cache::new(5);
    let now: i64 = 1_700_000_000;
    let ttl_secs: i64 = 5 * 60;

    let status = cache.status_at(entry_at(now - ttl_secs - 1), now);
    assert!(matches!(status, CacheStatus::Expired));

    let status = cache.status_at(entry_at(now - ttl_secs + 1), now);
    assert!(matches!(status, CacheStatus::Fresh(_)));

    // The boundary itself still counts as fresh: age == ttl.
    let status = cache.status_at(entry_at(now - ttl_secs), now);
    assert!(matches!(status, CacheStatus::Fresh(_)));
}

#[test]
fn missing_and_corrupted_are_classified_independently() {
    let cache = Cache::new(5);
    let now: i64 = 1_700_000_000;

    assert!(matches!(cache.status_at(CacheReadOutcome::Absent, now), CacheStatus::Missing));
    assert!(matches!(cache.status_at(CacheReadOutcome::Unreadable, now), CacheStatus::Corrupted));
    assert!(matches!(
        cache.status_at(CacheReadOutcome::Undecodable, now),
        CacheStatus::Corrupted
    ));
}

#[test]
fn invalidate_is_idempotent() {
    let cache = Cache::new(5);
    let once = cache.invalidate(entry_at(1_700_000_000));
    assert!(matches!(once, CacheReadOutcome::Absent));

    let twice = cache.invalidate(once);
    assert!(matches!(twice, CacheReadOutcome::Absent));

    // Invalidating an already-missing store is not an error either.
    let on_missing = cache.invalidate(CacheReadOutcome::Absent);
    assert!(matches!(on_missing, CacheReadOutcome::Absent));
}

#[test]
fn set_stamps_the_snapshot() {
    let cache = Cache::new(5);
    let entry = cache.entry_at(snapshot("someone"), 1_700_000_000);
    assert_eq!(entry.timestamp, 1_700_000_000);
    assert_eq!(entry.data.user, "someone");

    // The clock-stamped variant carries the snapshot unchanged, and a
    // just-written entry never reads as missing or corrupted.
    let entry = cache.set(snapshot("someone"));
    assert_eq!(entry.data.user, "someone");
    let status = cache.status(CacheReadOutcome::Entry(entry));
    assert!(matches!(status, CacheStatus::Fresh(_) | CacheStatus::Expired));
}

#[test]
fn last_updated_reads_the_timestamp_only() {
    let cache = Cache::new(5);
    assert_eq!(cache.last_updated(&CacheReadOutcome::Absent), None);
    assert_eq!(cache.last_updated(&CacheReadOutcome::Unreadable), None);
    assert_eq!(cache.last_updated(&entry_at(42)), Some(42));
}

#[test]
fn cache_info_renders_the_last_update() {
    let cache = Cache::new(7);
    let now: i64 = 1_704_067_200; // 2024-01-01 00:00:00 UTC

    let info = build_cache_info(&cache, &entry_at(now - 60), now);
    assert_eq!(info.ttl_minutes, 7);
    assert!(info.is_fresh);
    assert_eq!(info.last_updated.as_deref(), Some("2023-12-31 23:59:00"));

    let info = build_cache_info(&cache, &CacheReadOutcome::Absent, now);
    assert!(!info.is_fresh);
    assert_eq!(info.last_updated, None);

    let info = build_cache_info(&cache, &entry_at(now - 10 * 60), now);
    assert!(!info.is_fresh);
    assert_eq!(info.last_updated.as_deref(), Some("2023-12-31 23:50:00"));
}
