//! The books of a pool of workers: how many are wanted, how many run, and
//! which tasks wait for one.
//!
//! The pool itself starts and stops nothing. Its caller spawns a worker for
//! each task that [`WorkerPool::balance_workers`] hands out, tells as many
//! workers to stop as it asks for, and reports each worker that ended with
//! [`WorkerPool::handle_event`].

use vstd::prelude::*;
use std::collections::VecDeque;

verus! {

/// What the pool can be told to do.
#[derive(Debug, Copy, Clone, PartialEq, Eq, Structural)]
pub enum WorkerPoolCommand {
    Stop,
}

/// What reaches the pool on its event bus.
#[derive(Debug, Copy, Clone, PartialEq, Eq, Structural)]
pub enum WorkerPoolEvent {
    /// A worker ended, by itself or because it was told to.
    WorkerDone,
    Command(WorkerPoolCommand),
}

/// What the caller does to bring the pool to its target.
pub enum Balance<In> {
    /// Spawn a worker for each of these tasks. They are already counted as
    /// running.
    Start(Vec<In>),
    /// Tell this many workers to stop. They count as running until each
    /// reports that it is done.
    Stop(usize),
}

/// The books of a pool as the contracts see them.
pub struct PoolView<In> {
    /// Workers wanted.
    pub target: nat,
    /// Workers running, those told to stop but not yet done among them.
    pub current: nat,
    /// Tasks waiting, oldest first.
    pub queue: Seq<In>,
}

/// The books of a pool of workers over tasks of type `In`.
pub struct WorkerPool<In> {
    num_workers: usize,
    cur_workers: usize,
    queue: VecDeque<In>,
}

impl<In> View for WorkerPool<In> {
    type V = PoolView<In>;

    closed spec fn view(&self) -> PoolView<In> {
        PoolView {
            target: self.num_workers as nat,
            current: self.cur_workers as nat,
            queue: self.queue@,
        }
    }
}

/// How many waiting tasks a pool can start: as many as bring it to its
/// target, so far as tasks are waiting.
pub open spec fn startable<In>(pool: PoolView<In>) -> nat {
    if pool.current >= pool.target {
        0
    } else if pool.queue.len() <= pool.target - pool.current {
        pool.queue.len()
    } else {
        (pool.target - pool.current) as nat
    }
}

impl<In> WorkerPool<In> {
    /// A pool that wants `num_workers` workers, runs none and has no task
    /// waiting.
    pub fn new(num_workers: usize) -> (pool: Self)
        ensures
            pool@ == (PoolView::<In> {
                target: num_workers as nat,
                current: 0,
                queue: Seq::empty(),
            }),
    {
        Self { queue: VecDeque::with_capacity(num_workers), cur_workers: 0, num_workers }
    }

    /// Number of workers currently working: those not yet told to stop and
    /// those that have not noticed that they were.
    pub fn cur_workers(&self) -> (n: usize)
        ensures
            n == self@.current,
    {
        self.cur_workers
    }

    /// Target number of workers.
    pub fn target_workers(&self) -> (n: usize)
        ensures
            n == self@.target,
    {
        self.num_workers
    }

    /// Whether the current number of workers is the target number.
    pub fn at_target_worker_count(&self) -> (at_target: bool)
        ensures
            at_target == (self@.current == self@.target),
    {
        self.cur_workers() == self.target_workers()
    }

    /// Whether any worker is running.
    pub fn working(&self) -> (working: bool)
        ensures
            working == (self@.current > 0),
    {
        self.cur_workers() > 0
    }

    /// Sets the target number of workers. Stops no worker that is running.
    pub fn set_target_workers(&mut self, n: usize)
        ensures
            final(self)@ == (PoolView { target: n as nat, ..old(self)@ }),
    {
        self.num_workers = n;
    }

    /// Adds a task to the back of the queue.
    pub fn push(&mut self, task: In)
        ensures
            final(self)@ == (PoolView { queue: old(self)@.queue.push(task), ..old(self)@ }),
    {
        self.queue.push_back(task);
    }

    /// Takes in one event from the bus and says whether the pool goes on. A
    /// worker that is done no longer counts as running; a command to stop
    /// ends the pool's run and changes nothing else.
    pub fn handle_event(&mut self, event: WorkerPoolEvent) -> (go_on: bool)
        requires
            event == WorkerPoolEvent::WorkerDone ==> old(self)@.current > 0,
        ensures
            go_on == (event == WorkerPoolEvent::WorkerDone),
            event == WorkerPoolEvent::WorkerDone ==> final(self)@ == (PoolView {
                current: (old(self)@.current - 1) as nat,
                ..old(self)@
            }),
            event != WorkerPoolEvent::WorkerDone ==> final(self)@ == old(self)@,
    {
        match event {
            WorkerPoolEvent::WorkerDone => {
                self.cur_workers = self.cur_workers - 1;
                true
            },
            WorkerPoolEvent::Command(command) => match command {
                WorkerPoolCommand::Stop => false,
            },
        }
    }

    /// Brings the pool towards its target. With room for more workers it
    /// hands out the oldest waiting tasks, as many as there is room for, and
    /// counts a worker for each; with more workers than wanted it says how
    /// many are to be told to stop, and changes nothing.
    pub fn balance_workers(&mut self) -> (balance: Balance<In>)
        ensures
            old(self)@.current <= old(self)@.target ==> (balance matches Balance::Start(tasks) && {
                &&& tasks@ == old(self)@.queue.take(startable(old(self)@) as int)
                &&& final(self)@ == (PoolView {
                    current: old(self)@.current + startable(old(self)@),
                    queue: old(self)@.queue.skip(startable(old(self)@) as int),
                    ..old(self)@
                })
            }),
            old(self)@.current > old(self)@.target ==> {
                &&& balance matches Balance::Stop(surplus)
                &&& surplus == old(self)@.current - old(self)@.target
                &&& final(self)@ == old(self)@
            },
    {
        if self.cur_workers <= self.num_workers {
            let mut tasks: Vec<In> = Vec::new();
            while self.queue.len() > 0 && self.cur_workers != self.num_workers
                invariant
                    self.num_workers == old(self).num_workers,
                    old(self).cur_workers <= self.cur_workers <= self.num_workers,
                    tasks@.len() == self.cur_workers - old(self).cur_workers,
                    tasks@.len() <= old(self).queue@.len(),
                    tasks@ == old(self).queue@.take(tasks@.len() as int),
                    self.queue@ == old(self).queue@.skip(tasks@.len() as int),
                decreases self.queue@.len(),
            {
                let next = self.queue.pop_front();
                match next {
                    Some(task) => {
                        tasks.push(task);
                        self.cur_workers = self.cur_workers + 1;
                    },
                    None => {},
                }
                assert(tasks@ =~= old(self).queue@.take(tasks@.len() as int));
                assert(self.queue@ =~= old(self).queue@.skip(tasks@.len() as int));
            }
            Balance::Start(tasks)
        } else {
            Balance::Stop(self.cur_workers - self.num_workers)
        }
    }
}

} // verus!
