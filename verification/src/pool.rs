//! The state of a connection pool, as a point-in-time snapshot, and the
//! capability through which a pool reports it.

use crate::error::{ErrorClass, SERVICE_UNAVAILABLE};
use crate::metrics::{tags_or_empty, MetricSample, MetricValue, Metrics};
use crate::tags::offer;
use vstd::prelude::*;

verus! {

/// A snapshot of a pool: how many connections are active, that is, held
/// by the pool, and how many of them are idle. The idle ones are never
/// more than the active ones.
#[derive(Debug, Clone, Copy, PartialEq, Eq, Structural)]
pub struct PoolState {
    active_connections: u32,
    idle_connections: u32,
}

impl PoolState {
    #[verifier::type_invariant]
    spec fn idle_within_all(&self) -> bool {
        self.idle_connections <= self.active_connections
    }

    /// The number of connections that the pool holds.
    pub closed spec fn active(&self) -> u32 {
        self.active_connections
    }

    /// The number of connections that are not in use.
    pub closed spec fn idle(&self) -> u32 {
        self.idle_connections
    }

    /// The number of connections in use.
    pub open spec fn busy(&self) -> int {
        self.active() - self.idle()
    }

    /// A snapshot with the counts given, where the idle connections are
    /// not more than the active ones.
    pub fn new(active_connections: u32, idle_connections: u32) -> (r: Option<PoolState>)
        ensures
            match r {
                Some(s) => idle_connections <= active_connections && s.active()
                    == active_connections && s.idle() == idle_connections,
                None => idle_connections > active_connections,
            },
    {
        if idle_connections <= active_connections {
            Some(PoolState { active_connections, idle_connections })
        } else {
            None
        }
    }

    /// The number of connections that the pool holds.
    pub fn active_connections(&self) -> (n: u32)
        ensures
            n == self.active(),
            n >= self.idle(),
    {
        proof {
            use_type_invariant(self);
        }
        self.active_connections
    }

    /// The number of connections that are not in use.
    pub fn idle_connections(&self) -> (n: u32)
        ensures
            n == self.idle(),
            n <= self.active(),
    {
        proof {
            use_type_invariant(self);
        }
        self.idle_connections
    }

    /// The number of connections in use.
    pub fn busy_connections(&self) -> (n: u32)
        ensures
            n == self.busy(),
    {
        proof {
            use_type_invariant(self);
        }
        self.active_connections - self.idle_connections
    }
}

/// Why a pool could not hand out a connection.
#[derive(Debug, Clone, Copy, PartialEq, Eq, Structural)]
pub enum PoolError {
    /// Every connection is in use and the pool cannot grow.
    PoolExhausted,
    /// No connection became free in time.
    PoolTimeout,
}

impl PoolError {
    /// The class of the error: the pool is a resource that was exhausted.
    pub fn class(&self) -> (c: ErrorClass)
        ensures
            c == ErrorClass::ResourceExhaustion,
            c.reportable(),
            c.always_labeled(),
    {
        ErrorClass::ResourceExhaustion
    }

    /// The status that a client sees.
    pub fn http_status(&self) -> (s: u16)
        ensures
            s == SERVICE_UNAVAILABLE,
            ErrorClass::ResourceExhaustion.maps_to(s),
    {
        SERVICE_UNAVAILABLE
    }
}

/// What a pool must offer so that its state can be watched. Reading the
/// state changes nothing: as long as the pool is left alone, every reading
/// gives the same snapshot.
pub trait GetPoolState {
    /// The snapshot that the pool would report now.
    spec fn snapshot(&self) -> PoolState;

    /// Reads the current counts without blocking.
    fn state(&self) -> (s: PoolState)
        ensures
            s == self.snapshot(),
    ;
}

impl GetPoolState for PoolState {
    open spec fn snapshot(&self) -> PoolState {
        *self
    }

    fn state(&self) -> (s: PoolState) {
        *self
    }
}

/// Two readings of a pool with nothing done to it in between.
pub fn state_twice<P: GetPoolState>(pool: &P) -> (r: (PoolState, PoolState))
    ensures
        r.0 == r.1,
        r.0 == pool.snapshot(),
{
    let first = pool.state();
    let second = pool.state();
    (first, second)
}

/// The gauge of the connections in use.
pub const ACTIVE_GAUGE: &'static str = "storage.pool.connections.active";

/// The gauge of the idle connections.
pub const IDLE_GAUGE: &'static str = "storage.pool.connections.idle";

/// The tags of a pool gauge: the default tags with the host name added.
pub open spec fn gauge_tags(metrics: Metrics, hostname: Seq<char>) -> Map<Seq<char>, Seq<char>> {
    tags_or_empty(metrics.tags).union_prefer_right(offer(Map::empty(), "hostname"@, hostname))
}

/// The two gauges that describe a pool at one moment: the connections in
/// use, then the idle ones, each tagged with the host name. Without a sink
/// there are none.
pub fn pool_gauges(metrics: &Metrics, state: &PoolState, hostname: &str) -> (samples: Vec<
    MetricSample,
>)
    ensures
        !metrics.client ==> samples@.len() == 0,
        metrics.client ==> samples@.len() == 2 && samples@[0].is(
            ACTIVE_GAUGE@,
            MetricValue::Gauge(state.busy() as u64),
            gauge_tags(*metrics, hostname@),
        ) && samples@[1].is(
            IDLE_GAUGE@,
            MetricValue::Gauge(state.idle() as u64),
            gauge_tags(*metrics, hostname@),
        ),
{
    let mut samples: Vec<MetricSample> = Vec::new();
    let busy = state.busy_connections();
    let idle = state.idle_connections();
    let active = metrics.gauge_with_tag(ACTIVE_GAUGE, busy as u64, "hostname", hostname);
    match active {
        Some(s) => {
            samples.push(s);
        },
        None => {},
    }
    let idle = metrics.gauge_with_tag(IDLE_GAUGE, idle as u64, "hostname", hostname);
    match idle {
        Some(s) => {
            samples.push(s);
        },
        None => {},
    }
    samples
}

} // verus!
