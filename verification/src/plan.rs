//! How a run is laid out: the threads, the connection loops on each, when
//! each loop starts and how long it waits between requests.

use vstd::prelude::*;
use crate::config::{
    connection_delay_of, connections_per_thread_of, limit_per_connection_of, tick_of, Config,
    ConfigView,
};
use crate::span::{Span, NANOS_PER_SEC};

verus! {

/// The resolved layout and pacing of one run. Every connection loop of the
/// run works to the same plan.
#[derive(Clone, Copy, Debug, PartialEq, Eq, Structural)]
pub struct Plan {
    /// OS threads the run is spread over.
    pub num_threads: u32,
    /// Connection loops on each thread.
    pub connections_per_thread: u32,
    /// Whether the run keeps to a rate.
    pub paced: bool,
    /// Time between two requests of the whole run; zero when unpaced.
    pub tick: Span,
    /// Time one loop leaves between the starts of two of its iterations; zero
    /// when unpaced.
    pub connection_delay: Span,
    /// Requests after which a loop stops.
    pub limit_per_connection: Option<u32>,
    /// Time since the start of the run after which a loop stops.
    pub duration: Option<Span>,
    /// Exchanges made on each connection.
    pub repeat: u32,
}

/// The plan of a configuration run on `num_threads` threads.
pub open spec fn plan_of(config: ConfigView, num_threads: u32) -> Plan {
    Plan {
        num_threads,
        connections_per_thread: connections_per_thread_of(
            config.workers as nat,
            num_threads as nat,
        ) as u32,
        paced: config.rate is Some,
        tick: Span { nanos: tick_of(config.rate) as u128 },
        connection_delay: Span {
            nanos: connection_delay_of(
                config.rate,
                config.workers as nat,
                num_threads as nat,
            ) as u128,
        },
        limit_per_connection: limit_per_connection_of(config.limit, config.workers),
        duration: config.duration,
        repeat: config.repeat,
    }
}

/// The position of a connection loop in the order in which all loops of a
/// run start: thread `thread` starts `thread` ticks into the run, and its
/// loop number `index` a further `index` rounds of one tick per thread later.
pub open spec fn start_slot(num_threads: nat, thread: nat, index: nat) -> nat {
    thread + index * num_threads
}

impl Plan {
    /// Whether the plan can be carried out: it has a thread, a loop on each
    /// thread, an exchange on each connection, and a tick of at most a second.
    pub open spec fn wf(self) -> bool {
        &&& self.num_threads >= 1
        &&& self.connections_per_thread >= 1
        &&& self.repeat >= 1
        &&& self.tick@ <= NANOS_PER_SEC
    }

    /// Nanoseconds after its thread's start at which loop `index` of a thread
    /// begins.
    pub open spec fn worker_stagger_nanos(self, index: nat) -> nat {
        index * (self.tick@ * (self.num_threads as nat))
    }

    /// Connection loops over all threads.
    pub open spec fn spawned(self) -> nat {
        (self.connections_per_thread as nat) * (self.num_threads as nat)
    }

    /// Whether the plan can be carried out.
    pub fn is_wf(&self) -> (wf: bool)
        ensures
            wf == self.wf(),
    {
        self.num_threads >= 1 && self.connections_per_thread >= 1 && self.repeat >= 1
            && self.tick.as_nanos() <= NANOS_PER_SEC
    }

    /// The plan of `config` when it runs on `num_threads` threads.
    pub fn of(config: &Config, num_threads: u32) -> (plan: Plan)
        requires
            config@.valid(),
            num_threads >= 1,
        ensures
            plan == plan_of(config@, num_threads),
            plan.wf(),
    {
        Plan {
            num_threads,
            connections_per_thread: config.connections_per_thread_for(num_threads),
            paced: config.rate.is_some(),
            tick: config.tick_delay(),
            connection_delay: config.connection_delay_for(num_threads),
            limit_per_connection: config.limit_per_connection(),
            duration: config.duration,
            repeat: config.repeat,
        }
    }

    /// The plan of `config` on this machine: on the threads it asks for, or
    /// on one per logical CPU.
    pub fn new(config: &Config) -> (plan: Plan)
        requires
            config@.valid(),
        ensures
            exists|num_threads: u32| #[trigger]
                config@.runs_on(num_threads) && plan == plan_of(config@, num_threads),
            plan.wf(),
    {
        let num_threads: u32 = config.num_threads();
        assert(config@.runs_on(num_threads));
        Plan::of(config, num_threads)
    }

    /// How long loop `index` of a thread waits before its first iteration, so
    /// that the loops of the thread start spread over one connection delay.
    /// Zero for every loop of an unpaced run.
    pub fn worker_stagger(&self, index: u32) -> (wait: Span)
        requires
            self.wf(),
        ensures
            wait@ == self.worker_stagger_nanos(index as nat),
    {
        let tick: u128 = self.tick.as_nanos();
        let threads: u128 = self.num_threads as u128;
        let nth: u128 = index as u128;
        assert(tick * threads <= NANOS_PER_SEC * 0x1_0000_0000) by (nonlinear_arith)
            requires
                tick <= NANOS_PER_SEC,
                threads <= 0x1_0000_0000,
        ;
        let round: u128 = tick * threads;
        assert(nth * round <= 0x1_0000_0000 * (NANOS_PER_SEC * 0x1_0000_0000)) by (nonlinear_arith)
            requires
                nth <= 0x1_0000_0000,
                round <= NANOS_PER_SEC * 0x1_0000_0000,
        ;
        Span::from_nanos(nth * round)
    }

    /// How long the driver waits between the starts of two threads: one tick.
    pub fn thread_stagger(&self) -> (wait: Span)
        ensures
            wait == self.tick,
    {
        self.tick
    }
}

/// The loops on a thread are at least one and no more than the workers asked
/// for (or one, where none is asked for).
pub proof fn lemma_share_bounds(workers: nat, num_threads: nat)
    requires
        num_threads >= 1,
    ensures
        1 <= connections_per_thread_of(workers, num_threads),
        connections_per_thread_of(workers, num_threads) <= if workers == 0 {
            1
        } else {
            workers
        },
{
    assert(workers / num_threads <= workers) by (nonlinear_arith)
        requires
            num_threads >= 1,
    ;
}

/// No worker is lost to rounding: the loops of all threads together are at
/// least the workers asked for, wherever the threads divide the workers
/// evenly or outnumber them.
pub proof fn lemma_never_under_spawns(config: ConfigView, num_threads: u32)
    requires
        config.valid(),
        config.runs_on(num_threads),
        config.workers < num_threads || config.workers % num_threads == 0,
    ensures
        plan_of(config, num_threads).spawned() >= config.workers,
{
    let w = config.workers as nat;
    let t = num_threads as nat;
    assert(t >= 1);
    lemma_share_bounds(w, t);
    let plan = plan_of(config, num_threads);
    assert(plan.connections_per_thread as nat == connections_per_thread_of(w, t));
    if w >= t {
        assert((w / t) * t == w) by (nonlinear_arith)
            requires
                t >= 1,
                w % t == 0,
        ;
        assert(w / t >= 1) by (nonlinear_arith)
            requires
                t >= 1,
                w >= t,
        ;
        assert(plan.spawned() == (w / t) * t);
    } else {
        assert(w / t == 0) by (nonlinear_arith)
            requires
                t >= 1,
                w < t,
        ;
        assert(plan.spawned() == 1 * t);
    }
}

/// Where more workers are asked for than there are threads, and the threads
/// do not divide them evenly, the loops of all threads together fall short
/// of the workers by the remainder.
pub proof fn lemma_rounding_drops_remainder(config: ConfigView, num_threads: u32)
    requires
        config.valid(),
        config.runs_on(num_threads),
        config.workers >= num_threads,
    ensures
        plan_of(config, num_threads).spawned() == config.workers - config.workers % num_threads,
{
    let w = config.workers as nat;
    let t = num_threads as nat;
    assert(t >= 1);
    lemma_share_bounds(w, t);
    assert((w / t) * t == w - w % t && w / t >= 1) by (nonlinear_arith)
        requires
            t >= 1,
            w >= t,
    ;
}

/// Where the threads divide the workers evenly, the connection delay is one
/// tick for each worker, so that delay times workers is tick times workers
/// squared, whatever the number of threads.
pub proof fn lemma_delay_is_tick_per_worker(config: ConfigView, num_threads: u32)
    requires
        config.valid(),
        config.runs_on(num_threads),
        config.workers >= 1,
        config.workers % num_threads == 0,
    ensures
        plan_of(config, num_threads).connection_delay@ == tick_of(config.rate) * config.workers,
        plan_of(config, num_threads).connection_delay@ * config.workers == tick_of(config.rate)
            * config.workers * config.workers,
{
    let w = config.workers as nat;
    let t = num_threads as nat;
    let tick = tick_of(config.rate);
    assert(t >= 1);
    lemma_share_bounds(w, t);
    lemma_tick_bound(config.rate);
    assert((w / t) * t == w && w / t >= 1) by (nonlinear_arith)
        requires
            t >= 1,
            w >= 1,
            w % t == 0,
    ;
    let per_thread = connections_per_thread_of(w, t);
    assert(per_thread == w / t);
    assert(tick * per_thread * t == tick * w) by (nonlinear_arith)
        requires
            per_thread * t == w,
    ;
    assert(tick * w <= NANOS_PER_SEC * 0x1_0000_0000) by (nonlinear_arith)
        requires
            tick <= NANOS_PER_SEC,
            w <= 0x1_0000_0000,
    ;
}

/// Changing the threads alone does not change the connection delay, so long
/// as both thread counts divide the workers evenly.
pub proof fn lemma_delay_independent_of_threads(
    config: ConfigView,
    num_threads: u32,
    other_threads: Option<u32>,
    other_num_threads: u32,
)
    requires
        config.valid(),
        config.runs_on(num_threads),
        (ConfigView { threads: other_threads, ..config }).valid(),
        (ConfigView { threads: other_threads, ..config }).runs_on(other_num_threads),
        config.workers >= 1,
        config.workers % num_threads == 0,
        config.workers % other_num_threads == 0,
    ensures
        plan_of(config, num_threads).connection_delay == plan_of(
            ConfigView { threads: other_threads, ..config },
            other_num_threads,
        ).connection_delay,
{
    lemma_delay_is_tick_per_worker(config, num_threads);
    lemma_delay_is_tick_per_worker(
        ConfigView { threads: other_threads, ..config },
        other_num_threads,
    );
}

/// With a limit, the requests that all loops complete together, each doing
/// its share, are the workers times the limit divided by the workers and
/// rounded down, so long as the threads divide the workers evenly; that is
/// the limit itself where the workers divide it evenly.
pub proof fn lemma_limited_total(config: ConfigView, num_threads: u32)
    requires
        config.valid(),
        config.runs_on(num_threads),
        config.limit is Some,
        config.workers % num_threads == 0,
    ensures
        plan_of(config, num_threads).limit_per_connection == Some(
            config.limit->0 / config.workers,
        ),
        plan_of(config, num_threads).spawned() * (config.limit->0 / config.workers)
            == config.workers * (config.limit->0 / config.workers),
        config.limit->0 % config.workers == 0 ==> plan_of(config, num_threads).spawned() * (
        config.limit->0 / config.workers) == config.limit->0,
{
    let w = config.workers as nat;
    let t = num_threads as nat;
    let l = config.limit->0 as nat;
    assert(t >= 1 && w >= 1);
    lemma_share_bounds(w, t);
    assert((w / t) * t == w && w / t >= 1) by (nonlinear_arith)
        requires
            t >= 1,
            w >= 1,
            w % t == 0,
    ;
    if l % w == 0 {
        assert(w * (l / w) == l) by (nonlinear_arith)
            requires
                w >= 1,
                l % w == 0,
        ;
    }
}

/// Every connection loop of a run starts in a slot of its own: two loops that
/// differ in their thread or in their number on it start in different slots.
pub proof fn lemma_start_slots_differ(
    num_threads: nat,
    thread: nat,
    index: nat,
    other_thread: nat,
    other_index: nat,
)
    requires
        thread < num_threads,
        other_thread < num_threads,
        thread != other_thread || index != other_index,
    ensures
        start_slot(num_threads, thread, index) != start_slot(
            num_threads,
            other_thread,
            other_index,
        ),
{
    if index != other_index {
        assert(thread + index * num_threads != other_thread + other_index * num_threads)
            by (nonlinear_arith)
            requires
                thread < num_threads,
                other_thread < num_threads,
                index != other_index,
        ;
    }
}

/// The slots of a plan's loops are the first ones: as many as it has loops.
pub proof fn lemma_start_slot_in_range(plan: Plan, thread: nat, index: nat)
    requires
        thread < plan.num_threads,
        index < plan.connections_per_thread,
    ensures
        start_slot(plan.num_threads as nat, thread, index) < plan.spawned(),
{
    let t = plan.num_threads as nat;
    let c = plan.connections_per_thread as nat;
    assert(thread + index * t < c * t) by (nonlinear_arith)
        requires
            thread < t,
            index < c,
    ;
}

/// A loop starts its slot's number of ticks into the run: its thread starts
/// one tick after the thread before it, and the loop waits out its stagger on
/// top of that.
pub proof fn lemma_start_time_is_slot_ticks(plan: Plan, thread: nat, index: nat)
    ensures
        thread * plan.tick@ + plan.worker_stagger_nanos(index) == start_slot(
            plan.num_threads as nat,
            thread,
            index,
        ) * plan.tick@,
{
    let t = plan.num_threads as nat;
    let tick = plan.tick@;
    assert(thread * tick + index * (tick * t) == (thread + index * t) * tick)
        by (nonlinear_arith);
}

/// The loops of a thread start evenly spread over one connection delay: the
/// stagger of loop `index`, taken once for each loop of the thread, is `index`
/// connection delays.
pub proof fn lemma_stagger_spreads_delay(config: ConfigView, num_threads: u32, index: nat)
    requires
        config.valid(),
        config.runs_on(num_threads),
    ensures
        plan_of(config, num_threads).worker_stagger_nanos(index) * plan_of(
            config,
            num_threads,
        ).connections_per_thread == index * plan_of(config, num_threads).connection_delay@,
{
    let w = config.workers as nat;
    let t = num_threads as nat;
    let tick = tick_of(config.rate);
    let per_thread = connections_per_thread_of(w, t);
    lemma_share_bounds(w, t);
    lemma_tick_bound(config.rate);
    assert(tick * per_thread <= NANOS_PER_SEC * 0x1_0000_0000) by (nonlinear_arith)
        requires
            tick <= NANOS_PER_SEC,
            per_thread <= 0x1_0000_0000,
    ;
    assert(tick * per_thread * t <= NANOS_PER_SEC * 0x1_0000_0000 * 0x1_0000_0000)
        by (nonlinear_arith)
        requires
            tick * per_thread <= NANOS_PER_SEC * 0x1_0000_0000,
            t <= 0x1_0000_0000,
    ;
    let plan = plan_of(config, num_threads);
    assert(plan.tick@ == tick);
    assert(plan.connections_per_thread as nat == per_thread);
    assert(plan.connection_delay@ == tick * per_thread * t);
    assert((index * (tick * t)) * per_thread == index * (tick * per_thread * t))
        by (nonlinear_arith);
}

/// A tick is at most a second.
pub proof fn lemma_tick_bound(rate: Option<u32>)
    requires
        rate != Some(0u32),
    ensures
        tick_of(rate) <= NANOS_PER_SEC,
{
    if let Some(r) = rate {
        let r = r as nat;
        assert((NANOS_PER_SEC as nat) / r <= NANOS_PER_SEC) by (nonlinear_arith)
            requires
                r >= 1,
        ;
    }
}

} // verus!
