//! Counts a run keeps of what it did, reconciled when its threads are joined.

use vstd::prelude::*;
use std::ops::Add;
use std::time::{Duration, Instant};

verus! {

/// A point on the machine's monotonic clock. Nothing is known of one but what
/// the clock's own functions say.
#[verifier::external_type_specification]
#[verifier::external_body]
pub struct ExInstant(Instant);

/// The time from `earlier` to `later` as `Instant::duration_since` measures
/// it: the time that passed between the two, and nothing where `later` is
/// the earlier of them.
pub uninterp spec fn time_between(later: Instant, earlier: Instant) -> Duration;

/// Trusted: `Instant::now` reads the clock. Nothing is claimed of what it
/// returns.
pub assume_specification[ Instant::now ]() -> (now: Instant);

/// Trusted: `Instant::duration_since` returns the time between its two
/// arguments, which depends on them alone. It does not panic: where `earlier`
/// is the later of the two it returns nothing.
pub assume_specification[ Instant::duration_since ](later: &Instant, earlier: Instant) -> (elapsed:
    Duration)
    ensures
        elapsed == time_between(*later, earlier),
;

/// What a run, or a part of one, read and wrote, and when.
#[derive(Debug, Copy, Clone)]
pub struct Stats {
    pub bytes_read: usize,
    pub bytes_written: usize,
    pub connections: usize,
    pub connection_attempts: usize,
    pub start_time: Instant,
    pub end_time: Instant,
}

impl Stats {
    /// The time from the start to the end of what the counts cover.
    pub fn duration(self: &Self) -> (elapsed: Duration)
        ensures
            elapsed == time_between(self.end_time, self.start_time),
    {
        self.end_time.duration_since(self.start_time)
    }

    /// Counts of nothing, that start and end about now.
    pub fn new() -> (stats: Stats)
        ensures
            stats.bytes_read == 0,
            stats.bytes_written == 0,
            stats.connections == 0,
            stats.connection_attempts == 0,
    {
        Stats {
            bytes_read: 0,
            bytes_written: 0,
            connections: 0,
            connection_attempts: 0,
            start_time: Instant::now(),
            end_time: Instant::now(),
        }
    }
}

impl vstd::std_specs::ops::AddSpecImpl for Stats {
    open spec fn obeys_add_spec() -> bool {
        true
    }

    /// The sums must fit.
    open spec fn add_req(self, other: Stats) -> bool {
        &&& self.bytes_read + other.bytes_read <= usize::MAX
        &&& self.bytes_written + other.bytes_written <= usize::MAX
        &&& self.connections + other.connections <= usize::MAX
        &&& self.connection_attempts + other.connection_attempts <= usize::MAX
    }

    /// Each count is the sum of the two; the time covered runs from the start
    /// of the first to the end of the second.
    open spec fn add_spec(self, other: Stats) -> Stats {
        Stats {
            bytes_read: (self.bytes_read + other.bytes_read) as usize,
            bytes_written: (self.bytes_written + other.bytes_written) as usize,
            connections: (self.connections + other.connections) as usize,
            connection_attempts: (self.connection_attempts + other.connection_attempts) as usize,
            start_time: self.start_time,
            end_time: other.end_time,
        }
    }
}

impl Add for Stats {
    type Output = Stats;

    fn add(self: Stats, other: Stats) -> (sum: Stats) {
        Stats {
            bytes_read: self.bytes_read + other.bytes_read,
            bytes_written: self.bytes_written + other.bytes_written,
            connections: self.connections + other.connections,
            connection_attempts: self.connection_attempts + other.connection_attempts,
            start_time: self.start_time,
            end_time: other.end_time,
        }
    }
}

/// Counts one thread of a blocking run keeps.
#[derive(Copy, Clone, Debug, PartialEq, Eq, Structural)]
pub struct Metrics {
    requests: u64,
    connects: u64,
    reconnects: u64,
}

impl Metrics {
    /// Requests written.
    pub closed spec fn requests(self) -> nat {
        self.requests as nat
    }

    /// Connections made.
    pub closed spec fn connects(self) -> nat {
        self.connects as nat
    }

    /// Connections made anew after one broke.
    pub closed spec fn reconnects(self) -> nat {
        self.reconnects as nat
    }

    /// Counts of nothing.
    pub fn new() -> (metrics: Metrics)
        ensures
            metrics.requests() == 0,
            metrics.connects() == 0,
            metrics.reconnects() == 0,
    {
        Metrics { requests: 0, connects: 0, reconnects: 0 }
    }
}

} // verus!
