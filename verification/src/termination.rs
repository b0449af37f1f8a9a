//! When a connection loop stops.

use vstd::prelude::*;
use crate::plan::Plan;
use crate::span::Span;

verus! {

/// Whether a loop that has completed `completed` requests stops when it looks
/// `now` nanoseconds into the run: the run's duration is over, the loop has
/// done its share of the run's limit, or the driver has asked every loop to
/// stop. Any one of the three is enough.
pub open spec fn stop_due(plan: Plan, now: nat, completed: nat, shutdown: bool) -> bool {
    ||| (plan.duration matches Some(d) && now >= d@)
    ||| (plan.limit_per_connection matches Some(k) && completed >= k)
    ||| shutdown
}

/// Tells a connection loop whether to stop. `now` is the time since the run
/// started, `completed` the loop's own count of completed requests.
pub fn should_stop(plan: &Plan, now: Span, completed: u64, shutdown: bool) -> (stop: bool)
    ensures
        stop == stop_due(*plan, now@, completed as nat, shutdown),
{
    let out_of_time = match plan.duration {
        Some(d) => now.as_nanos() >= d.as_nanos(),
        None => false,
    };
    let share_done = match plan.limit_per_connection {
        Some(k) => completed >= k as u64,
        None => false,
    };
    out_of_time || share_done || shutdown
}

} // verus!
