use sdex_indexer::health::{health_check, CacheProbe, ComponentStatus, ProbeOutcome};
use sdex_indexer::offer::Timestamp;
use sdex_indexer::persistence::{PoolStats, StartupAction, StartupError, StartupEvent, StartupState};

#[test]
fn startup_connects_then_migrates_then_serves() {
    let s = StartupState::Disconnected;
    assert_eq!(s.action(), StartupAction::Connect);
    let s = s.on(StartupEvent::ConnectSucceeded);
    assert_eq!(s, StartupState::Connected);
    assert_eq!(s.action(), StartupAction::Migrate);
    let s = s.on(StartupEvent::MigrateSucceeded);
    assert_eq!(s, StartupState::Ready);
    assert_eq!(s.action(), StartupAction::Serve);
    assert_eq!(s.on(StartupEvent::MigrateSucceeded), StartupState::Ready);
    assert_eq!(s.on(StartupEvent::ConnectFailed), StartupState::Ready);
}

#[test]
fn unreachable_store_ends_startup() {
    let s = StartupState::Disconnected.on(StartupEvent::ConnectFailed);
    assert_eq!(s, StartupState::Failed(StartupError::Connection));
    assert_eq!(s.action(), StartupAction::Exit(StartupError::Connection));
    assert_eq!(s.on(StartupEvent::ConnectSucceeded), s);
    assert_eq!(s.on(StartupEvent::MigrateSucceeded), s);
}

#[test]
fn failed_migration_ends_startup() {
    let s = StartupState::Connected.on(StartupEvent::MigrateFailed);
    assert_eq!(s, StartupState::Failed(StartupError::Migration));
    assert_eq!(s.action(), StartupAction::Exit(StartupError::Migration));
}

#[test]
fn migration_before_connection_is_ignored() {
    let s = StartupState::Disconnected.on(StartupEvent::MigrateSucceeded);
    assert_eq!(s, StartupState::Disconnected);
    assert_eq!(StartupState::Disconnected.on(StartupEvent::MigrateFailed), StartupState::Disconnected);
    assert_eq!(StartupState::Connected.on(StartupEvent::ConnectFailed), StartupState::Connected);
}

#[test]
fn pool_sample_counts_connections_in_use() {
    let stats = PoolStats::sample(10, 4, 2);
    assert_eq!(stats, PoolStats { size: 10, in_use: 6, waiting: 2 });
    assert_eq!(stats.idle(), 4);
    assert_eq!(PoolStats::sample(10, 10, 0).in_use, 0);
    assert_eq!(PoolStats::sample(10, 12, 0), PoolStats { size: 10, in_use: 0, waiting: 0 });
    assert_eq!(PoolStats::sample(0, 0, 7), PoolStats { size: 0, in_use: 0, waiting: 7 });
    assert_eq!(PoolStats::sample(u32::MAX, 0, 0).in_use, u32::MAX);
}

#[test]
fn metrics_name_both_components() {
    let at = Timestamp { seconds: 1700000000, nanos: 5 };
    let report = health_check(ProbeOutcome::Failed, CacheProbe::NotConfigured);
    let (database, redis) = report.metrics(at);
    assert_eq!(database.component, "database");
    assert_eq!(database.status, ComponentStatus::Unhealthy);
    assert_eq!(database.timestamp, at);
    assert_eq!(redis.component, "redis");
    assert_eq!(redis.status, ComponentStatus::NotConfigured);
    assert_eq!(redis.timestamp, at);
}
