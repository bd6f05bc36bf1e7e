//! Composite health: the store is required, the cache is optional, and a
//! cache that is busy is never taken for one that is down.

use vstd::prelude::*;
use crate::offer::Timestamp;

verus! {

/// What one component reports.
#[derive(Debug, Clone, Copy, PartialEq, Eq, Structural)]
pub enum ComponentStatus {
    Healthy,
    Unhealthy,
    NotConfigured,
}

/// How one probe ended. A probe that ran out of time counts as failed.
#[derive(Debug, Clone, Copy, PartialEq, Eq, Structural)]
pub enum ProbeOutcome {
    Succeeded,
    Failed,
    TimedOut,
}

/// What the attempt to probe the cache came to.
#[derive(Debug, Clone, Copy, PartialEq, Eq, Structural)]
pub enum CacheProbe {
    /// No cache is configured.
    NotConfigured,
    /// The cache is in use and its lock could not be had without waiting.
    Contended,
    /// The lock was had and the probe ran.
    Answered(ProbeOutcome),
}

/// The composite status and the status of each component.
#[derive(Debug, Clone, Copy, PartialEq, Eq, Structural)]
pub struct HealthReport {
    pub healthy: bool,
    pub database: ComponentStatus,
    pub redis: ComponentStatus,
}

/// The body that the health endpoint answers with, as text.
#[derive(Debug, Clone, PartialEq, Eq)]
pub struct HealthResponse {
    pub status: String,
    pub timestamp: String,
    pub version: String,
    pub database: String,
    pub redis: String,
}

/// The status of one component at one moment. It is made anew by each
/// probe and never stored.
#[derive(Debug, Clone, PartialEq, Eq)]
pub struct HealthMetric {
    pub component: String,
    pub status: ComponentStatus,
    pub timestamp: Timestamp,
}

/// The status that a finished probe stands for.
pub open spec fn probe_status(p: ProbeOutcome) -> ComponentStatus {
    match p {
        ProbeOutcome::Succeeded => ComponentStatus::Healthy,
        ProbeOutcome::Failed => ComponentStatus::Unhealthy,
        ProbeOutcome::TimedOut => ComponentStatus::Unhealthy,
    }
}

/// The status that the cache reports: contention says nothing of the cache
/// and is reported as healthy.
pub open spec fn cache_status(c: CacheProbe) -> ComponentStatus {
    match c {
        CacheProbe::NotConfigured => ComponentStatus::NotConfigured,
        CacheProbe::Contended => ComponentStatus::Healthy,
        CacheProbe::Answered(p) => probe_status(p),
    }
}

/// The composite: healthy only if the store is healthy and the cache is not
/// unhealthy.
pub open spec fn composite(store: ProbeOutcome, cache: CacheProbe) -> HealthReport {
    HealthReport {
        healthy: probe_status(store) == ComponentStatus::Healthy && cache_status(cache)
            != ComponentStatus::Unhealthy,
        database: probe_status(store),
        redis: cache_status(cache),
    }
}

/// The word that the endpoint writes for a component status.
pub open spec fn status_word(s: ComponentStatus) -> Seq<char> {
    match s {
        ComponentStatus::Healthy => "healthy"@,
        ComponentStatus::Unhealthy => "unhealthy"@,
        ComponentStatus::NotConfigured => "not_configured"@,
    }
}

/// The word that the endpoint writes for the composite status.
pub open spec fn overall_word(healthy: bool) -> Seq<char> {
    if healthy {
        "healthy"@
    } else {
        "unhealthy"@
    }
}

impl ProbeOutcome {
    /// The status that this outcome stands for.
    pub fn status(self) -> (r: ComponentStatus)
        ensures
            r == probe_status(self),
    {
        match self {
            ProbeOutcome::Succeeded => ComponentStatus::Healthy,
            ProbeOutcome::Failed => ComponentStatus::Unhealthy,
            ProbeOutcome::TimedOut => ComponentStatus::Unhealthy,
        }
    }
}

impl CacheProbe {
    /// The status that the cache reports.
    pub fn status(self) -> (r: ComponentStatus)
        ensures
            r == cache_status(self),
    {
        match self {
            CacheProbe::NotConfigured => ComponentStatus::NotConfigured,
            CacheProbe::Contended => ComponentStatus::Healthy,
            CacheProbe::Answered(p) => p.status(),
        }
    }
}

impl ComponentStatus {
    /// The word that the endpoint writes for this status.
    pub fn label(self) -> (r: &'static str)
        ensures
            r@ == status_word(self),
    {
        match self {
            ComponentStatus::Healthy => "healthy",
            ComponentStatus::Unhealthy => "unhealthy",
            ComponentStatus::NotConfigured => "not_configured",
        }
    }
}

/// Folds the two probes of one health check into the report.
pub fn health_check(store: ProbeOutcome, cache: CacheProbe) -> (r: HealthReport)
    ensures
        r == composite(store, cache),
{
    let database = store.status();
    let redis = cache.status();
    let healthy = match (database, redis) {
        (ComponentStatus::Healthy, ComponentStatus::Healthy) => true,
        (ComponentStatus::Healthy, ComponentStatus::NotConfigured) => true,
        _ => false,
    };
    HealthReport { healthy, database, redis }
}

impl HealthReport {
    /// The HTTP status of the answer: 200 when healthy, 503 otherwise.
    pub fn http_status(&self) -> (code: u16)
        ensures
            code == if self.healthy { 200u16 } else { 503u16 },
    {
        if self.healthy {
            200
        } else {
            503
        }
    }

    /// The word that the endpoint writes for the composite status.
    pub fn status_label(&self) -> (r: &'static str)
        ensures
            r@ == overall_word(self.healthy),
    {
        if self.healthy {
            "healthy"
        } else {
            "unhealthy"
        }
    }

    /// The metrics of the two components, the store first, each stamped
    /// with the time of the check.
    pub fn metrics(&self, at: Timestamp) -> (r: (HealthMetric, HealthMetric))
        ensures
            r.0.component@ == "database"@,
            r.0.status == self.database,
            r.0.timestamp == at,
            r.1.component@ == "redis"@,
            r.1.status == self.redis,
            r.1.timestamp == at,
    {
        (
            HealthMetric { component: "database".to_owned(), status: self.database, timestamp: at },
            HealthMetric { component: "redis".to_owned(), status: self.redis, timestamp: at },
        )
    }

    /// The body of the answer, with the time and the version that the
    /// caller states.
    pub fn response(&self, timestamp: String, version: String) -> (r: HealthResponse)
        ensures
            r.status@ == overall_word(self.healthy),
            r.timestamp == timestamp,
            r.version == version,
            r.database@ == status_word(self.database),
            r.redis@ == status_word(self.redis),
    {
        HealthResponse {
            status: self.status_label().to_owned(),
            timestamp,
            version,
            database: self.database.label().to_owned(),
            redis: self.redis.label().to_owned(),
        }
    }
}

/// Where one health check stands between two probes.
#[derive(Debug, Clone, Copy, PartialEq, Eq, Structural)]
pub enum HealthState {
    AwaitingStore { cache_configured: bool },
    AwaitingCacheLock { store: ProbeOutcome },
    AwaitingCache { store: ProbeOutcome },
    Done(HealthReport),
}

/// What the caller has to report back.
#[derive(Debug, Clone, Copy, PartialEq, Eq, Structural)]
pub enum HealthEvent {
    StoreProbed(ProbeOutcome),
    CacheLockTried { acquired: bool },
    CacheProbed(ProbeOutcome),
}

/// What the caller has to do next.
#[derive(Debug, Clone, Copy, PartialEq, Eq, Structural)]
pub enum HealthAction {
    ProbeStore,
    TryLockCache,
    ProbeCache,
    Respond(HealthReport),
}

/// What a state waits for.
pub open spec fn pending_action(state: HealthState) -> HealthAction {
    match state {
        HealthState::AwaitingStore { .. } => HealthAction::ProbeStore,
        HealthState::AwaitingCacheLock { .. } => HealthAction::TryLockCache,
        HealthState::AwaitingCache { .. } => HealthAction::ProbeCache,
        HealthState::Done(report) => HealthAction::Respond(report),
    }
}

/// The state after an event. An event that the state does not wait for
/// changes nothing.
pub open spec fn next_state(state: HealthState, event: HealthEvent) -> HealthState {
    match (state, event) {
        (HealthState::AwaitingStore { cache_configured }, HealthEvent::StoreProbed(store)) => {
            if cache_configured {
                HealthState::AwaitingCacheLock { store }
            } else {
                HealthState::Done(composite(store, CacheProbe::NotConfigured))
            }
        },
        (HealthState::AwaitingCacheLock { store }, HealthEvent::CacheLockTried { acquired }) => {
            if acquired {
                HealthState::AwaitingCache { store }
            } else {
                HealthState::Done(composite(store, CacheProbe::Contended))
            }
        },
        (HealthState::AwaitingCache { store }, HealthEvent::CacheProbed(cache)) => {
            HealthState::Done(composite(store, CacheProbe::Answered(cache)))
        },
        _ => state,
    }
}

/// Starts a health check: the store is probed first.
pub fn begin(cache_configured: bool) -> (r: (HealthState, HealthAction))
    ensures
        r.0 == (HealthState::AwaitingStore { cache_configured }),
        r.1 == HealthAction::ProbeStore,
{
    (HealthState::AwaitingStore { cache_configured }, HealthAction::ProbeStore)
}

/// Takes one event and says what to do next.
pub fn step(state: HealthState, event: HealthEvent) -> (r: (HealthState, HealthAction))
    ensures
        r.0 == next_state(state, event),
        r.1 == pending_action(r.0),
{
    let next = match (state, event) {
        (HealthState::AwaitingStore { cache_configured }, HealthEvent::StoreProbed(store)) => {
            if cache_configured {
                HealthState::AwaitingCacheLock { store }
            } else {
                HealthState::Done(health_check(store, CacheProbe::NotConfigured))
            }
        },
        (HealthState::AwaitingCacheLock { store }, HealthEvent::CacheLockTried { acquired }) => {
            if acquired {
                HealthState::AwaitingCache { store }
            } else {
                HealthState::Done(health_check(store, CacheProbe::Contended))
            }
        },
        (HealthState::AwaitingCache { store }, HealthEvent::CacheProbed(cache)) => {
            HealthState::Done(health_check(store, CacheProbe::Answered(cache)))
        },
        _ => state,
    };
    let action = match next {
        HealthState::AwaitingStore { .. } => HealthAction::ProbeStore,
        HealthState::AwaitingCacheLock { .. } => HealthAction::TryLockCache,
        HealthState::AwaitingCache { .. } => HealthAction::ProbeCache,
        HealthState::Done(report) => HealthAction::Respond(report),
    };
    (next, action)
}

/// A store whose probe did not succeed makes the composite unhealthy, and a
/// cache whose probe succeeded is still reported as healthy beside it.
pub proof fn lemma_store_down_cache_up(store: ProbeOutcome)
    requires
        store != ProbeOutcome::Succeeded,
    ensures
        !composite(store, CacheProbe::Answered(ProbeOutcome::Succeeded)).healthy,
        composite(store, CacheProbe::Answered(ProbeOutcome::Succeeded)).database
            == ComponentStatus::Unhealthy,
        composite(store, CacheProbe::Answered(ProbeOutcome::Succeeded)).redis
            == ComponentStatus::Healthy,
{
}

/// A cache whose lock could not be had is reported as healthy, and the
/// composite then goes by the store alone.
pub proof fn lemma_contention_counts_as_healthy(store: ProbeOutcome)
    ensures
        composite(store, CacheProbe::Contended).redis == ComponentStatus::Healthy,
        composite(store, CacheProbe::Contended).healthy == (store == ProbeOutcome::Succeeded),
{
}

/// Without a cache the cache is reported as not configured, and the
/// composite goes by the store alone.
pub proof fn lemma_missing_cache_is_neutral(store: ProbeOutcome)
    ensures
        composite(store, CacheProbe::NotConfigured).redis == ComponentStatus::NotConfigured,
        composite(store, CacheProbe::NotConfigured).healthy == (store == ProbeOutcome::Succeeded),
{
}

/// A probe that ran out of time counts exactly as one that failed, for the
/// store and for the cache.
pub proof fn lemma_timeout_counts_as_failure(store: ProbeOutcome, cache: CacheProbe)
    ensures
        composite(ProbeOutcome::TimedOut, cache) == composite(ProbeOutcome::Failed, cache),
        composite(store, CacheProbe::Answered(ProbeOutcome::TimedOut)) == composite(
            store,
            CacheProbe::Answered(ProbeOutcome::Failed),
        ),
{
}

/// The composite is healthy exactly when the store is healthy and the cache
/// is not unhealthy; a configured cache whose probe fails counts.
pub proof fn lemma_composite_rule(store: ProbeOutcome, cache: CacheProbe)
    ensures
        composite(store, cache).healthy <==> (store == ProbeOutcome::Succeeded && (cache
            == CacheProbe::NotConfigured || cache == CacheProbe::Contended || cache
            == CacheProbe::Answered(ProbeOutcome::Succeeded))),
{
}

/// However the cache answers, a health check that is driven to its end
/// responds with the composite of what was probed.
pub proof fn lemma_check_ends_in_composite(
    store: ProbeOutcome,
    cache: ProbeOutcome,
)
    ensures
        next_state(HealthState::AwaitingStore { cache_configured: false }, HealthEvent::StoreProbed(store))
            == HealthState::Done(composite(store, CacheProbe::NotConfigured)),
        next_state(
            next_state(HealthState::AwaitingStore { cache_configured: true }, HealthEvent::StoreProbed(store)),
            HealthEvent::CacheLockTried { acquired: false },
        ) == HealthState::Done(composite(store, CacheProbe::Contended)),
        next_state(
            next_state(
                next_state(
                    HealthState::AwaitingStore { cache_configured: true },
                    HealthEvent::StoreProbed(store),
                ),
                HealthEvent::CacheLockTried { acquired: true },
            ),
            HealthEvent::CacheProbed(cache),
        ) == HealthState::Done(composite(store, CacheProbe::Answered(cache))),
{
}

} // verus!
