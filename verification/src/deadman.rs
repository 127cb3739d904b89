//! The pool health monitor. It watches snapshots of the pool and keeps the
//! moment at which the pool became saturated; the liveness handler
//! compares that moment with the clock.

use crate::metrics::elapsed_ms;
use crate::pool::PoolState;
use vstd::prelude::*;

verus! {

/// The status of a healthy reply.
pub const STATUS_OK: u16 = 200;

/// The status of a degraded reply.
pub const STATUS_DEGRADED: u16 = 500;

/// The shared health state of the pool.
#[derive(Debug, Clone, Copy, PartialEq, Eq, Structural)]
pub struct Deadman {
    /// The size at which the pool is full, where one is configured.
    pub max_size: Option<u32>,
    /// The clock, in milliseconds, at which the saturation that still
    /// lasts began.
    pub clock_start: Option<u64>,
    /// The idle connections of the last snapshot that was taken into
    /// account.
    pub previous_idle_count: u32,
}

/// What the liveness endpoint reports besides its status.
#[derive(Debug, Clone, Copy, PartialEq, Eq, Structural)]
pub struct LbHeartbeat {
    pub active_connections: Option<u32>,
    pub idle_connections: Option<u32>,
    pub duration_ms: Option<u64>,
}

/// A pool of the size `max_size` is saturated in the state given: a size
/// is configured, as many connections as that are in use, and none is idle.
pub open spec fn saturated(max_size: Option<u32>, state: PoolState) -> bool {
    max_size matches Some(max) && state.busy() >= max && state.idle() == 0
}

impl Deadman {
    /// The monitor after it has seen `state` at the clock reading `now`.
    /// Saturation that begins sets the clock, saturation that lasts leaves
    /// it, and a state that is not saturated clears it.
    pub open spec fn after(self, state: PoolState, now: u64) -> Deadman {
        Deadman {
            max_size: self.max_size,
            clock_start: if saturated(self.max_size, state) {
                if self.clock_start is None {
                    Some(now)
                } else {
                    self.clock_start
                }
            } else {
                None
            },
            previous_idle_count: if self.max_size is Some {
                state.idle()
            } else {
                self.previous_idle_count
            },
        }
    }

    /// The monitor after it has seen the snapshots given, one after the
    /// other, each with its clock reading.
    pub open spec fn after_all(self, snapshots: Seq<(PoolState, u64)>) -> Deadman
        decreases snapshots.len(),
    {
        if snapshots.len() == 0 {
            self
        } else {
            self.after_all(snapshots.drop_last()).after(snapshots.last().0, snapshots.last().1)
        }
    }

    /// How long the saturation has lasted at the clock reading `now`.
    pub open spec fn saturation_ms(self, now: u64) -> Option<u64> {
        match self.clock_start {
            Some(start) => Some(elapsed_ms(start, now)),
            None => None,
        }
    }

    /// The pool has been saturated for longer than the grace period.
    pub open spec fn unhealthy(self, now: u64, grace_ms: u64) -> bool {
        self.clock_start matches Some(start) && elapsed_ms(start, now) > grace_ms
    }

    /// A monitor for a pool of the size given, not saturated.
    pub fn new(max_size: Option<u32>) -> (d: Deadman)
        ensures
            d == (Deadman { max_size, clock_start: None, previous_idle_count: 0 }),
    {
        Deadman { max_size, clock_start: None, previous_idle_count: 0 }
    }

    /// Takes the snapshot `state`, read at the clock reading `now`, into
    /// account.
    pub fn observe(&mut self, state: &PoolState, now: u64)
        ensures
            *final(self) == old(self).after(*state, now),
    {
        let idle = state.idle_connections();
        let busy = state.busy_connections();
        match self.max_size {
            Some(max) => {
                if busy >= max && idle == 0 {
                    if self.clock_start.is_none() {
                        self.clock_start = Some(now);
                    }
                } else {
                    self.clock_start = None;
                }
                self.previous_idle_count = idle;
            },
            None => {
                self.clock_start = None;
            },
        }
    }

    /// How long the saturation has lasted at the clock reading `now`, in
    /// milliseconds; nothing where the pool is not saturated.
    pub fn duration_ms(&self, now: u64) -> (d: Option<u64>)
        ensures
            d == self.saturation_ms(now),
    {
        match self.clock_start {
            Some(start) => Some(
                if now >= start {
                    now - start
                } else {
                    0
                },
            ),
            None => None,
        }
    }

    /// Whether the saturation has lasted for longer than `grace_ms`.
    pub fn is_unhealthy(&self, now: u64, grace_ms: u64) -> (b: bool)
        ensures
            b == self.unhealthy(now, grace_ms),
    {
        match self.duration_ms(now) {
            Some(d) => d > grace_ms,
            None => false,
        }
    }
}

impl Default for Deadman {
    fn default() -> (d: Deadman)
        ensures
            d == (Deadman { max_size: None, clock_start: None, previous_idle_count: 0 }),
    {
        Deadman { max_size: None, clock_start: None, previous_idle_count: 0 }
    }
}

/// The reply of the liveness endpoint for the monitor `d`, which has just
/// seen `state`, at the clock reading `now`.
pub open spec fn liveness_reply(d: Deadman, state: PoolState, now: u64, grace_ms: u64) -> (
    u16,
    LbHeartbeat,
) {
    (
        if d.unhealthy(now, grace_ms) {
            STATUS_DEGRADED
        } else {
            STATUS_OK
        },
        if d.max_size is Some {
            LbHeartbeat {
                active_connections: Some(state.active()),
                idle_connections: Some(state.idle()),
                duration_ms: d.saturation_ms(now),
            }
        } else {
            LbHeartbeat { active_connections: None, idle_connections: None, duration_ms: None }
        },
    )
}

/// Answers the liveness endpoint. The monitor first takes the snapshot
/// into account. The status is degraded where the pool has been saturated
/// for longer than `grace_ms`; the counts are reported where a size is
/// configured, and the duration while the pool is saturated.
pub fn lbheartbeat(deadman: &mut Deadman, state: &PoolState, now: u64, grace_ms: u64) -> (r: (
    u16,
    LbHeartbeat,
))
    ensures
        *final(deadman) == old(deadman).after(*state, now),
        r == liveness_reply(*final(deadman), *state, now, grace_ms),
{
    deadman.observe(state, now);
    let status = if deadman.is_unhealthy(now, grace_ms) {
        STATUS_DEGRADED
    } else {
        STATUS_OK
    };
    let body = if deadman.max_size.is_some() {
        LbHeartbeat {
            active_connections: Some(state.active_connections()),
            idle_connections: Some(state.idle_connections()),
            duration_ms: deadman.duration_ms(now),
        }
    } else {
        LbHeartbeat { active_connections: None, idle_connections: None, duration_ms: None }
    };
    (status, body)
}

/// While every snapshot finds the pool saturated, the clock stays at the
/// reading of the first one.
pub proof fn lemma_saturation_keeps_first_clock(d: Deadman, snapshots: Seq<(PoolState, u64)>)
    requires
        d.clock_start is None,
        snapshots.len() > 0,
        forall|i: int|
            0 <= i < snapshots.len() ==> saturated(d.max_size, (#[trigger] snapshots[i]).0),
    ensures
        d.after_all(snapshots).max_size == d.max_size,
        d.after_all(snapshots).clock_start == Some(snapshots[0].1),
    decreases snapshots.len(),
{
    let head = snapshots.drop_last();
    if head.len() > 0 {
        assert forall|i: int| 0 <= i < head.len() implies saturated(
            d.max_size,
            (#[trigger] head[i]).0,
        ) by {
            assert(head[i] == snapshots[i]);
        }
        lemma_saturation_keeps_first_clock(d, head);
        assert(head[0] == snapshots[0]);
    } else {
        assert(d.after_all(head) == d);
        assert(snapshots.last() == snapshots[0]);
    }
    assert(saturated(d.max_size, snapshots[snapshots.len() - 1].0));
}

/// A pool that has been found saturated in every snapshot, from a first
/// one on, is unhealthy as soon as more than the grace period has passed
/// since that first one.
pub proof fn lemma_lasting_saturation_is_unhealthy(
    d: Deadman,
    snapshots: Seq<(PoolState, u64)>,
    now: u64,
    grace_ms: u64,
)
    requires
        d.clock_start is None,
        snapshots.len() > 0,
        forall|i: int|
            0 <= i < snapshots.len() ==> saturated(d.max_size, (#[trigger] snapshots[i]).0),
        now - snapshots[0].1 > grace_ms,
    ensures
        d.after_all(snapshots).unhealthy(now, grace_ms),
{
    lemma_saturation_keeps_first_clock(d, snapshots);
}

/// A snapshot that does not find the pool saturated clears the clock at
/// once, and the pool is healthy again.
pub proof fn lemma_relief_clears_clock(d: Deadman, state: PoolState, now: u64, grace_ms: u64)
    requires
        !saturated(d.max_size, state),
    ensures
        d.after(state, now).clock_start is None,
        !d.after(state, now).unhealthy(now, grace_ms),
{
}

/// A pool with an idle connection is not saturated, whatever its size.
pub proof fn lemma_idle_connection_is_relief(max_size: Option<u32>, state: PoolState)
    requires
        state.idle() > 0,
    ensures
        !saturated(max_size, state),
{
}

} // verus!
