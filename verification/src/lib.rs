//! A two-aggregator private-measurement prototype.
//!
//! A client splits a private measurement into cryptographically verifiable
//! secret shares and sends one encrypted share to each of two non-colluding
//! aggregators (a leader and a helper). The aggregators jointly verify each
//! share without reconstructing the measurement and fold verified shares into
//! per-interval accumulators. A collector later retrieves the aggregate sum
//! for a window-aligned time interval, subject to a one-shot privacy budget.

use vstd::prelude::*;

pub mod aggregator;
pub mod batch;
pub mod client;
pub mod collect;
pub mod hpke_transport;
pub mod parameters;
pub mod problem;
pub mod upload;
pub mod vdaf;

verus! {

/// A protocol participant.
#[derive(Clone, Copy, Debug, PartialEq, Eq, Structural)]
pub enum Role {
    Leader,
    Helper,
    Collector,
}

impl Role {
    /// The role's position in per-aggregator share vectors: the leader's share
    /// comes first, the helper's second. The collector holds no share.
    pub open spec fn spec_index(self) -> int {
        match self {
            Role::Leader => 0,
            Role::Helper => 1,
            Role::Collector => 2,
        }
    }

    /// The role's position in per-aggregator share vectors.
    pub fn index(&self) -> (i: usize)
        ensures
            i == self.spec_index(),
    {
        match self {
            Role::Leader => 0,
            Role::Helper => 1,
            Role::Collector => 2,
        }
    }
}

/// A point in time, in seconds since the epoch.
#[derive(Clone, Copy, Debug, PartialEq, Eq, Structural)]
pub struct Time(pub u64);

/// A span of time, in seconds.
#[derive(Clone, Copy, Debug, PartialEq, Eq, Structural)]
pub struct Duration(pub u64);

/// A half-open time range `[start, start + duration)`.
#[derive(Clone, Copy, Debug, PartialEq, Eq, Structural)]
pub struct Interval {
    pub start: Time,
    pub duration: Duration,
}

impl Interval {
    /// The first instant after the interval.
    pub open spec fn spec_end(self) -> int {
        self.start.0 + self.duration.0
    }

    /// Whether instant `t` falls inside the interval.
    pub open spec fn spec_contains(self, t: int) -> bool {
        self.start.0 <= t < self.spec_end()
    }

    /// A collectible interval must align to the task's batch window: its start
    /// sits on a window boundary, its duration is a positive multiple of the
    /// window (so at least one whole window), and its end stays representable.
    pub open spec fn spec_aligned(self, window: int) -> bool {
        &&& window > 0
        &&& self.start.0 as int % window == 0
        &&& self.duration.0 as int % window == 0
        &&& self.duration.0 >= window
        &&& self.spec_end() <= u64::MAX
    }

    /// Whether instant `t` falls inside the interval.
    pub fn contains(&self, t: Time) -> (b: bool)
        ensures
            b == self.spec_contains(t.0 as int),
    {
        t.0 >= self.start.0 && t.0 - self.start.0 < self.duration.0
    }

    /// Whether the interval aligns to a batch window of `window` seconds.
    pub fn aligned(&self, window: u64) -> (b: bool)
        ensures
            b == self.spec_aligned(window as int),
    {
        window > 0 && self.start.0 % window == 0 && self.duration.0 % window == 0
            && self.duration.0 >= window && self.start.0.checked_add(self.duration.0).is_some()
    }
}

} // verus!
