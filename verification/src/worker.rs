//! The connection worker: one loop of connect, exchange, close and pace,
//! written as a state machine that asks its caller for the outside work.
//!
//! The caller owns the socket and the clock. It calls [`Worker::step`], does
//! what the returned [`Action`] asks, and calls `step` again with the time
//! and with how the work went.

use vstd::prelude::*;
use crate::mutator::PayloadMutator;
use crate::plan::Plan;
use crate::span::Span;
use crate::termination::{should_stop, stop_due};

verus! {

/// Where a worker is in its loop.
#[derive(Clone, Copy, Debug, PartialEq, Eq, Structural)]
pub enum Phase {
    /// At the top of an iteration, about to decide whether to go on.
    Idle,
    /// Waiting to hear whether the connection was made.
    Connecting,
    /// Holding a connection on which this many exchanges have succeeded,
    /// waiting to hear how the next one went.
    Exchanging(u32),
    /// The connection has been given up; the request is about to be counted.
    PostTx,
    /// About to wait out what is left of the connection delay.
    Pacing,
    /// Terminal.
    Done,
}

/// How the outside work that the last action asked for went.
#[derive(Clone, Copy, Debug, PartialEq, Eq, Structural)]
pub enum Outcome {
    Succeeded,
    Failed,
}

/// What the caller does before it calls `step` again.
#[derive(Clone, Copy, Debug, PartialEq, Eq, Structural)]
pub enum Action {
    /// Open a connection to the target and report whether that worked.
    Connect,
    /// Write the worker's current bytes to the connection, read once, and
    /// report whether both worked. Reading nothing is no failure.
    Exchange,
    /// Drop the connection.
    Close,
    /// Nothing.
    Proceed,
    /// Nothing but a warning: the iteration took longer than the connection
    /// delay, so the worker is behind its rate.
    FallingBehind,
    /// Sleep this long.
    Sleep(Span),
    /// Nothing, ever again: the worker is done.
    Stop,
}

/// What a worker is told at each step.
#[derive(Clone, Copy, Debug, PartialEq, Eq, Structural)]
pub struct Input {
    /// Time since the run started.
    pub now: Span,
    /// How the work asked for by the last action went. Read only while
    /// connecting and exchanging.
    pub outcome: Outcome,
    /// Whether the driver has asked every worker to stop.
    pub shutdown: bool,
}

/// The state of a worker as the contracts see it.
pub struct WorkerState {
    pub phase: Phase,
    /// Requests completed: the worker's counter.
    pub completed: nat,
    /// Nanoseconds into the run at which the current iteration began.
    pub iteration_start: nat,
    /// Connections made.
    pub opened: nat,
    /// Connections given up.
    pub closed: nat,
    /// Exchanges whose outcome was reported.
    pub exchanges: nat,
    /// Advances of the payload mutator since the worker was made, by the
    /// mutator's own count.
    pub advanced: nat,
}

impl WorkerState {
    /// The state every worker starts in.
    pub open spec fn initial() -> WorkerState {
        WorkerState {
            phase: Phase::Idle,
            completed: 0,
            iteration_start: 0,
            opened: 0,
            closed: 0,
            exchanges: 0,
            advanced: 0,
        }
    }

    /// Connections held open.
    pub open spec fn open_connections(self) -> int {
        self.opened - self.closed
    }
}

/// Time since the current iteration began.
pub open spec fn elapsed_in_iteration(s: WorkerState, now: nat) -> nat {
    if now >= s.iteration_start {
        (now - s.iteration_start) as nat
    } else {
        0
    }
}

/// One step of a worker: the state it moves to and what it asks for.
pub open spec fn step_of(s: WorkerState, plan: Plan, input: Input) -> (WorkerState, Action) {
    match s.phase {
        Phase::Idle => if stop_due(plan, input.now@, s.completed, input.shutdown) {
            (WorkerState { phase: Phase::Done, ..s }, Action::Stop)
        } else {
            (
                WorkerState { phase: Phase::Connecting, iteration_start: input.now@, ..s },
                Action::Connect,
            )
        },
        Phase::Connecting => match input.outcome {
            Outcome::Succeeded => (
                WorkerState { phase: Phase::Exchanging(0), opened: s.opened + 1, ..s },
                Action::Exchange,
            ),
            Outcome::Failed => (WorkerState { phase: Phase::Pacing, ..s }, Action::Proceed),
        },
        Phase::Exchanging(done) => if input.outcome == Outcome::Succeeded && done + 1
            < plan.repeat {
            (
                WorkerState {
                    phase: Phase::Exchanging((done + 1) as u32),
                    exchanges: s.exchanges + 1,
                    ..s
                },
                Action::Exchange,
            )
        } else {
            (
                WorkerState {
                    phase: Phase::PostTx,
                    exchanges: s.exchanges + 1,
                    closed: s.closed + 1,
                    ..s
                },
                Action::Close,
            )
        },
        Phase::PostTx => (
            WorkerState {
                phase: Phase::Pacing,
                completed: s.completed + 1,
                advanced: s.advanced + 1,
                ..s
            },
            Action::Proceed,
        ),
        Phase::Pacing => {
            let rested = WorkerState { phase: Phase::Idle, ..s };
            let elapsed = elapsed_in_iteration(s, input.now@);
            if !plan.paced {
                (rested, Action::Proceed)
            } else if elapsed >= plan.connection_delay@ {
                (rested, Action::FallingBehind)
            } else {
                (
                    rested,
                    Action::Sleep(Span { nanos: (plan.connection_delay@ - elapsed) as u128 }),
                )
            }
        },
        Phase::Done => (s, Action::Stop),
    }
}

/// What holds of a worker in every state it can reach under `plan`.
pub open spec fn consistent(s: WorkerState, plan: Plan) -> bool {
    &&& plan.repeat >= 1
    &&& (s.phase matches Phase::Exchanging(done) ==> done < plan.repeat)
    &&& s.opened == s.closed + (if s.phase is Exchanging { 1nat } else { 0nat })
    &&& s.closed == s.completed + (if s.phase is PostTx { 1nat } else { 0nat })
    &&& s.advanced == s.completed
    &&& s.exchanges <= s.closed * (plan.repeat as nat) + (match s.phase {
        Phase::Exchanging(done) => done as nat,
        _ => 0nat,
    })
    &&& (plan.limit_per_connection matches Some(k) ==> {
        &&& s.completed <= k
        &&& (s.phase is Connecting || s.phase is Exchanging || s.phase is PostTx ==> s.completed
            < k)
    })
}

/// A step keeps a worker consistent.
pub proof fn lemma_step_consistent(s: WorkerState, plan: Plan, input: Input)
    requires
        consistent(s, plan),
    ensures
        consistent(step_of(s, plan, input).0, plan),
{
    let next = step_of(s, plan, input).0;
    let repeat = plan.repeat as nat;
    assert((s.closed + 1) * repeat == s.closed * repeat + repeat) by (nonlinear_arith);
}

/// The state of a worker that started afresh and was stepped once for each
/// of `inputs`, in order.
pub open spec fn run_of(plan: Plan, inputs: Seq<Input>) -> WorkerState
    decreases inputs.len(),
{
    if inputs.len() == 0 {
        WorkerState::initial()
    } else {
        step_of(run_of(plan, inputs.drop_last()), plan, inputs.last()).0
    }
}

/// Ghost counts a worker keeps of what it has asked for.
pub ghost struct Tally {
    pub opened: nat,
    pub closed: nat,
    pub exchanges: nat,
}

/// One connection loop and the payload mutator it owns.
pub struct Worker<M: PayloadMutator> {
    plan: Plan,
    phase: Phase,
    completed: u64,
    iteration_start: Span,
    mutator: M,
    seed_generation: Ghost<nat>,
    tally: Ghost<Tally>,
    history: Ghost<Seq<Input>>,
}

impl<M: PayloadMutator> View for Worker<M> {
    type V = WorkerState;

    closed spec fn view(&self) -> WorkerState {
        WorkerState {
            phase: self.phase,
            completed: self.completed as nat,
            iteration_start: self.iteration_start@,
            opened: self.tally@.opened,
            closed: self.tally@.closed,
            exchanges: self.tally@.exchanges,
            advanced: (self.mutator.generation() - self.seed_generation@) as nat,
        }
    }
}

impl<M: PayloadMutator> Worker<M> {
    /// The plan the worker works to.
    pub closed spec fn plan(&self) -> Plan {
        self.plan
    }

    /// The bytes the worker sends on its next exchange.
    pub closed spec fn payload(&self) -> Seq<u8> {
        self.mutator.payload()
    }

    /// The count its mutator keeps of its own advances.
    pub closed spec fn mutator_generation(&self) -> nat {
        self.mutator.generation()
    }

    /// Everything the worker has been told, oldest first.
    pub closed spec fn history(&self) -> Seq<Input> {
        self.history@
    }

    /// Whether the worker is in a state that `new` and `step` can lead to.
    pub closed spec fn wf(&self) -> bool {
        &&& self.mutator.generation() >= self.seed_generation@
        &&& consistent(self@, self.plan)
        &&& self@ == run_of(self.plan, self.history@)
    }

    /// The state of a worker is the one that the steps it has taken lead to
    /// from a fresh start, and is consistent with its plan.
    pub proof fn lemma_state_is_run(&self)
        requires
            self.wf(),
        ensures
            self@ == run_of(self.plan(), self.history()),
            consistent(self@, self.plan()),
    {
    }

    /// A worker at the top of its first iteration.
    pub fn new(plan: Plan, mutator: M) -> (worker: Worker<M>)
        requires
            plan.repeat >= 1,
        ensures
            worker.wf(),
            worker@ == WorkerState::initial(),
            worker.plan() == plan,
            worker.history() == Seq::<Input>::empty(),
            worker.payload() == mutator.payload(),
            worker.mutator_generation() == mutator.generation(),
    {
        let ghost seed = mutator.generation();
        Worker {
            plan,
            phase: Phase::Idle,
            completed: 0,
            iteration_start: Span::zero(),
            mutator,
            seed_generation: Ghost(seed),
            tally: Ghost(Tally { opened: 0, closed: 0, exchanges: 0 }),
            history: Ghost(Seq::empty()),
        }
    }

    /// Where the worker is in its loop.
    pub fn phase(&self) -> (phase: Phase)
        ensures
            phase == self@.phase,
    {
        self.phase
    }

    /// Requests the worker has completed.
    pub fn completed(&self) -> (count: u64)
        ensures
            count == self@.completed,
    {
        self.completed
    }

    /// The bytes to write on the next exchange.
    pub fn current_bytes(&self) -> (bytes: &[u8])
        ensures
            bytes@ == self.payload(),
    {
        self.mutator.current_bytes()
    }

    /// Moves the worker one transition on and says what the caller is to do
    /// before the next step.
    ///
    /// The mutator is advanced in one transition only, the one that counts a
    /// request, and there once; in every other the payload stays as it is.
    pub fn step(&mut self, input: Input) -> (action: Action)
        requires
            old(self).wf(),
            old(self)@.phase is PostTx ==> old(self)@.completed < u64::MAX,
        ensures
            final(self).wf(),
            final(self).plan() == old(self).plan(),
            final(self).history() == old(self).history().push(input),
            (final(self)@, action) == step_of(old(self)@, old(self).plan(), input),
            final(self).mutator_generation() == old(self).mutator_generation() + (if old(
                self,
            )@.phase is PostTx {
                1nat
            } else {
                0nat
            }),
            !(old(self)@.phase is PostTx) ==> final(self).payload() == old(self).payload(),
    {
        proof {
            lemma_step_consistent(self@, self.plan, input);
            assert(self.history@.push(input).drop_last() =~= self.history@);
            self.history@ = self.history@.push(input);
        }
        match self.phase {
            Phase::Idle => {
                if should_stop(&self.plan, input.now, self.completed, input.shutdown) {
                    self.phase = Phase::Done;
                    Action::Stop
                } else {
                    self.phase = Phase::Connecting;
                    self.iteration_start = input.now;
                    Action::Connect
                }
            },
            Phase::Connecting => {
                match input.outcome {
                    Outcome::Succeeded => {
                        self.phase = Phase::Exchanging(0);
                        proof {
                            self.tally@.opened = self.tally@.opened + 1;
                        }
                        Action::Exchange
                    },
                    Outcome::Failed => {
                        self.phase = Phase::Pacing;
                        Action::Proceed
                    },
                }
            },
            Phase::Exchanging(done) => {
                proof {
                    self.tally@.exchanges = self.tally@.exchanges + 1;
                }
                let succeeded = match input.outcome {
                    Outcome::Succeeded => true,
                    Outcome::Failed => false,
                };
                if succeeded && done + 1 < self.plan.repeat {
                    self.phase = Phase::Exchanging(done + 1);
                    Action::Exchange
                } else {
                    self.phase = Phase::PostTx;
                    proof {
                        self.tally@.closed = self.tally@.closed + 1;
                    }
                    Action::Close
                }
            },
            Phase::PostTx => {
                self.mutator.advance();
                self.completed = self.completed + 1;
                self.phase = Phase::Pacing;
                Action::Proceed
            },
            Phase::Pacing => {
                self.phase = Phase::Idle;
                if !self.plan.paced {
                    Action::Proceed
                } else {
                    let elapsed = input.now.saturating_sub(self.iteration_start);
                    if elapsed.as_nanos() >= self.plan.connection_delay.as_nanos() {
                        Action::FallingBehind
                    } else {
                        Action::Sleep(self.plan.connection_delay.saturating_sub(elapsed))
                    }
                }
            },
            Phase::Done => Action::Stop,
        }
    }
}

} // verus!
