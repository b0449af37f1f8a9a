//! Whole runs of a worker: what holds after any sequence of steps.

use vstd::prelude::*;
use crate::plan::Plan;
use crate::worker::{
    consistent, lemma_step_consistent, run_of, step_of, Action, Input, WorkerState,
};

verus! {

/// Whether the driver never asked for a stop during `inputs`.
pub open spec fn never_shut_down(inputs: Seq<Input>) -> bool {
    forall|i: int| 0 <= i < inputs.len() ==> !(#[trigger] inputs[i]).shutdown
}

/// However a worker is stepped, it stays consistent with its plan.
pub proof fn lemma_run_consistent(plan: Plan, inputs: Seq<Input>)
    requires
        plan.repeat >= 1,
    ensures
        consistent(run_of(plan, inputs), plan),
    decreases inputs.len(),
{
    if inputs.len() > 0 {
        lemma_run_consistent(plan, inputs.drop_last());
        lemma_step_consistent(run_of(plan, inputs.drop_last()), plan, inputs.last());
    }
}

/// A worker never holds more than one open connection: after any steps it
/// holds one while it is exchanging and none otherwise.
pub proof fn lemma_at_most_one_connection(plan: Plan, inputs: Seq<Input>)
    requires
        plan.repeat >= 1,
    ensures
        0 <= run_of(plan, inputs).open_connections() <= 1,
        run_of(plan, inputs).open_connections() == 1 <==> run_of(plan, inputs).phase is Exchanging,
{
    lemma_run_consistent(plan, inputs);
}

/// A worker asks for a connection only while it holds none.
pub proof fn lemma_connects_only_when_closed(plan: Plan, inputs: Seq<Input>, next: Input)
    requires
        plan.repeat >= 1,
        step_of(run_of(plan, inputs), plan, next).1 == Action::Connect,
    ensures
        run_of(plan, inputs).open_connections() == 0,
{
    lemma_run_consistent(plan, inputs);
}

/// The mutator is advanced once for each connection that was closed, however
/// many exchanges the connection saw: the two counts differ only in the one
/// transition between closing a connection and counting its request. No
/// connection sees more exchanges than the plan's repeat.
pub proof fn lemma_one_advance_per_closed_connection(plan: Plan, inputs: Seq<Input>)
    requires
        plan.repeat >= 1,
    ensures
        run_of(plan, inputs).phase is PostTx ==> run_of(plan, inputs).advanced + 1 == run_of(
            plan,
            inputs,
        ).closed,
        !(run_of(plan, inputs).phase is PostTx) ==> run_of(plan, inputs).advanced == run_of(
            plan,
            inputs,
        ).closed,
        run_of(plan, inputs).advanced == run_of(plan, inputs).completed,
        run_of(plan, inputs).exchanges <= run_of(plan, inputs).opened * (plan.repeat as nat),
{
    lemma_run_consistent(plan, inputs);
    let s = run_of(plan, inputs);
    let repeat = plan.repeat as nat;
    assert(s.closed * repeat + repeat == (s.closed + 1) * repeat) by (nonlinear_arith);
}

/// A worker with a share of a limit never completes more than its share.
pub proof fn lemma_never_over_share(plan: Plan, inputs: Seq<Input>)
    requires
        plan.repeat >= 1,
        plan.limit_per_connection is Some,
    ensures
        run_of(plan, inputs).completed <= plan.limit_per_connection->0,
{
    lemma_run_consistent(plan, inputs);
}

/// A worker that is bounded by its share of a limit alone, with no duration
/// and no stop asked of it, is done only once it has completed exactly that
/// share, whatever the outcomes and the times it was told.
pub proof fn lemma_limited_worker_completes_share(plan: Plan, inputs: Seq<Input>)
    requires
        plan.repeat >= 1,
        plan.limit_per_connection is Some,
        plan.duration is None,
        never_shut_down(inputs),
        run_of(plan, inputs).phase is Done,
    ensures
        run_of(plan, inputs).completed == plan.limit_per_connection->0,
    decreases inputs.len(),
{
    if inputs.len() > 0 {
        let before = run_of(plan, inputs.drop_last());
        lemma_run_consistent(plan, inputs.drop_last());
        assert(!inputs[inputs.len() - 1].shutdown);
        if before.phase is Done {
            assert forall|i: int| 0 <= i < inputs.drop_last().len() implies !(
            #[trigger] inputs.drop_last()[i]).shutdown by {
                assert(inputs.drop_last()[i] == inputs[i]);
            }
            lemma_limited_worker_completes_share(plan, inputs.drop_last());
        }
    }
}

/// Two runs to the same plan, bounded by the limit alone, complete the same
/// number of requests once both are done, even where their timings and
/// outcomes differ.
pub proof fn lemma_limited_runs_agree(plan: Plan, first: Seq<Input>, second: Seq<Input>)
    requires
        plan.repeat >= 1,
        plan.limit_per_connection is Some,
        plan.duration is None,
        never_shut_down(first),
        never_shut_down(second),
        run_of(plan, first).phase is Done,
        run_of(plan, second).phase is Done,
    ensures
        run_of(plan, first).completed == run_of(plan, second).completed,
{
    lemma_limited_worker_completes_share(plan, first);
    lemma_limited_worker_completes_share(plan, second);
}

/// A worker bounded by a duration alone stops at the first look it takes at
/// or after that time into the run, and at no earlier one.
pub proof fn lemma_duration_stops_at_first_look(plan: Plan, s: WorkerState, input: Input)
    requires
        s.phase is Idle,
        plan.duration is Some,
        plan.limit_per_connection is None,
        !input.shutdown,
    ensures
        step_of(s, plan, input).0.phase is Done <==> input.now@ >= plan.duration->0@,
{
}

/// Once done, a worker stays done and changes nothing.
pub proof fn lemma_done_is_terminal(plan: Plan, s: WorkerState, input: Input)
    requires
        s.phase is Done,
    ensures
        step_of(s, plan, input) == (s, Action::Stop),
{
}

} // verus!
