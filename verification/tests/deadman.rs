use syncserver::deadman::{lbheartbeat, Deadman, LbHeartbeat, STATUS_DEGRADED, STATUS_OK};
use syncserver::db::report_pool_state;
use syncserver::error::ErrorClass;
use syncserver::metrics::{MetricValue, Metrics};
use syncserver::pool::{pool_gauges, state_twice, GetPoolState, PoolError, PoolState};

fn state(connections: u32, idle: u32) -> PoolState {
    PoolState::new(connections, idle).expect("a state")
}

#[test]
fn pool_state_needs_idle_within_all() {
    assert!(PoolState::new(3, 4).is_none());
    let s = state(10, 4);
    assert_eq!(s.active_connections(), 10);
    assert_eq!(s.idle_connections(), 4);
    assert_eq!(s.busy_connections(), 6);
    assert_eq!(state(0, 0).busy_connections(), 0);
    assert_eq!(state(u32::MAX, 0).busy_connections(), u32::MAX);
}

#[test]
fn state_of_a_pool_left_alone_is_the_same_each_time() {
    let pool = state(8, 3);
    let (first, second) = state_twice(&pool);
    assert_eq!(first, second);
    assert_eq!(pool.state(), pool.state());
    assert_eq!(first, pool);
}

#[test]
fn saturation_for_longer_than_the_grace_period_is_unhealthy() {
    let grace = 5_000;
    let mut deadman = Deadman::new(Some(10));
    let full = state(10, 0);
    deadman.observe(&full, 1_000);
    assert_eq!(deadman.clock_start, Some(1_000));
    assert!(!deadman.is_unhealthy(1_000, grace));
    deadman.observe(&full, 4_000);
    assert_eq!(deadman.clock_start, Some(1_000));
    assert!(!deadman.is_unhealthy(4_000, grace));
    deadman.observe(&full, 6_000);
    assert!(!deadman.is_unhealthy(6_000, grace));
    deadman.observe(&full, 6_001);
    assert_eq!(deadman.clock_start, Some(1_000));
    assert!(deadman.is_unhealthy(6_001, grace));
    assert_eq!(deadman.duration_ms(6_001), Some(5_001));
    deadman.observe(&state(10, 1), 6_002);
    assert_eq!(deadman.clock_start, None);
    assert!(!deadman.is_unhealthy(6_002, grace));
    assert_eq!(deadman.duration_ms(6_002), None);
    assert_eq!(deadman.previous_idle_count, 1);
}

#[test]
fn saturation_that_begins_again_starts_the_clock_again() {
    let mut deadman = Deadman::new(Some(2));
    deadman.observe(&state(2, 0), 10);
    deadman.observe(&state(2, 1), 20);
    deadman.observe(&state(3, 0), 30);
    assert_eq!(deadman.clock_start, Some(30));
}

#[test]
fn pool_below_its_size_is_not_saturated() {
    let mut deadman = Deadman::new(Some(10));
    deadman.observe(&state(9, 0), 10);
    assert_eq!(deadman.clock_start, None);
    assert_eq!(deadman.previous_idle_count, 0);
}

#[test]
fn monitor_without_a_size_never_starts_the_clock() {
    let mut deadman = Deadman::default();
    assert_eq!(deadman, Deadman { max_size: None, clock_start: None, previous_idle_count: 0 });
    deadman.observe(&state(100, 0), 10);
    assert_eq!(deadman.clock_start, None);
    deadman.previous_idle_count = 7;
    deadman.observe(&state(100, 3), 20);
    assert_eq!(deadman.previous_idle_count, 7);
    let mut odd = Deadman { max_size: None, clock_start: Some(1), previous_idle_count: 0 };
    odd.observe(&state(1, 0), 2);
    assert_eq!(odd.clock_start, None);
}

#[test]
fn liveness_reports_counts_and_duration() {
    let mut deadman = Deadman::new(Some(10));
    let (status, body) = lbheartbeat(&mut deadman, &state(12, 2), 100, 50);
    assert_eq!(status, STATUS_OK);
    assert_eq!(
        body,
        LbHeartbeat { active_connections: Some(12), idle_connections: Some(2), duration_ms: None }
    );
    let (status, body) = lbheartbeat(&mut deadman, &state(10, 0), 200, 50);
    assert_eq!(status, STATUS_OK);
    assert_eq!(
        body,
        LbHeartbeat { active_connections: Some(10), idle_connections: Some(0), duration_ms: Some(0) }
    );
    let (status, body) = lbheartbeat(&mut deadman, &state(10, 0), 250, 50);
    assert_eq!(status, 200);
    assert_eq!(body.duration_ms, Some(50));
    let (status, body) = lbheartbeat(&mut deadman, &state(11, 0), 251, 50);
    assert_eq!(status, STATUS_DEGRADED);
    assert_eq!(status, 500);
    assert_eq!(
        body,
        LbHeartbeat { active_connections: Some(11), idle_connections: Some(0), duration_ms: Some(51) }
    );
    let (status, body) = lbheartbeat(&mut deadman, &state(11, 1), 300, 50);
    assert_eq!(status, STATUS_OK);
    assert_eq!(body.duration_ms, None);
}

#[test]
fn liveness_without_a_size_reports_nothing() {
    let mut deadman = Deadman::new(None);
    let (status, body) = lbheartbeat(&mut deadman, &state(5, 0), 100, 0);
    assert_eq!(status, STATUS_OK);
    assert_eq!(
        body,
        LbHeartbeat { active_connections: None, idle_connections: None, duration_ms: None }
    );
}

#[test]
fn gauges_of_the_pool() {
    let metrics = Metrics::noop();
    let samples = pool_gauges(&metrics, &state(10, 4), "host-1");
    assert_eq!(samples.len(), 2);
    assert_eq!(samples[0].label, "storage.pool.connections.active");
    assert_eq!(samples[0].value, MetricValue::Gauge(6));
    assert_eq!(samples[0].tags, vec![("hostname".to_owned(), "host-1".to_owned())]);
    assert_eq!(samples[1].label, "storage.pool.connections.idle");
    assert_eq!(samples[1].value, MetricValue::Gauge(4));
    assert_eq!(samples[1].tags, vec![("hostname".to_owned(), "host-1".to_owned())]);
    let silent = Metrics { client: false, tags: None, timer: None };
    assert!(pool_gauges(&silent, &state(10, 4), "host-1").is_empty());
}

#[test]
fn round_of_the_reporter_updates_the_monitor() {
    let metrics = Metrics::noop();
    let mut deadman = Deadman::new(Some(4));
    let samples = report_pool_state(&state(4, 0), &mut deadman, &metrics, "h", 77);
    assert_eq!(deadman.clock_start, Some(77));
    assert_eq!(samples.len(), 2);
    assert_eq!(samples[0].value, MetricValue::Gauge(4));
    assert_eq!(samples[1].value, MetricValue::Gauge(0));
    let samples = report_pool_state(&state(4, 2), &mut deadman, &metrics, "h", 99);
    assert_eq!(deadman.clock_start, None);
    assert_eq!(deadman.previous_idle_count, 2);
    assert_eq!(samples[0].value, MetricValue::Gauge(2));
}

#[test]
fn exhausted_pool_is_unavailable_and_reported() {
    for error in [PoolError::PoolExhausted, PoolError::PoolTimeout] {
        assert_eq!(error.http_status(), 503);
        assert_eq!(error.class(), ErrorClass::ResourceExhaustion);
        assert!(error.class().is_reportable());
        assert!(error.class().is_always_labeled());
        assert!(error.class().has_status(error.http_status()));
    }
}
