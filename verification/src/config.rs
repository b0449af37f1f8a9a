//! The settings of a load run and the quantities derived from them.

use vstd::prelude::*;
use crate::host::logical_cpus;
use crate::span::{Span, NANOS_PER_SEC};

verus! {

/// The host part of an endpoint, as the address's bits.
#[derive(Clone, Copy, Debug, PartialEq, Eq, Structural, Hash)]
pub enum Host {
    /// An IPv4 address, first octet in the highest byte.
    V4(u32),
    /// An IPv6 address, first segment in the highest bits.
    V6(u128),
}

/// The address a run sends its requests to.
#[derive(Clone, Copy, Debug, PartialEq, Eq, Structural, Hash)]
pub struct Endpoint {
    pub host: Host,
    pub port: u16,
}

/// Settings for the load test.
#[derive(Clone, Debug)]
pub struct Config {
    /// Address of the host that is called.
    pub target: Endpoint,
    /// Number of connection loops wanted over all threads.
    pub workers: u32,
    /// Upper bound on requests per second over the whole run; `None` runs unpaced.
    pub rate: Option<u32>,
    /// Wall-clock bound on the run, measured from its start; `None` runs until
    /// another bound stops it.
    pub duration: Option<Span>,
    /// Number of OS threads the loops are spread over; `None` takes one per
    /// logical CPU.
    pub threads: Option<u32>,
    /// Deadline for connecting, in milliseconds. Advisory.
    pub connect_timeout: Option<u32>,
    /// Deadline for a read, in milliseconds. Advisory.
    pub read_timeout: Option<u32>,
    /// Bound on the requests completed over the whole run.
    pub limit: Option<u32>,
    /// Write/read exchanges made on each connection before it is dropped.
    pub repeat: u32,
    /// Path of the fuzzing configuration handed to the payload mutator.
    pub fuzz_path: Option<String>,
}

/// The mathematical content of a [`Config`].
pub struct ConfigView {
    pub target: Endpoint,
    pub workers: u32,
    pub rate: Option<u32>,
    pub duration: Option<Span>,
    pub threads: Option<u32>,
    pub connect_timeout: Option<u32>,
    pub read_timeout: Option<u32>,
    pub limit: Option<u32>,
    pub repeat: u32,
    pub fuzz_path: Option<Seq<char>>,
}

impl View for Config {
    type V = ConfigView;

    open spec fn view(&self) -> ConfigView {
        ConfigView {
            target: self.target,
            workers: self.workers,
            rate: self.rate,
            duration: self.duration,
            threads: self.threads,
            connect_timeout: self.connect_timeout,
            read_timeout: self.read_timeout,
            limit: self.limit,
            repeat: self.repeat,
            fuzz_path: self.fuzz_path.deep_view(),
        }
    }
}

/// Connection loops wanted when nothing else is asked for.
pub const DEFAULT_WORKERS: u32 = 100;

/// The thread count a run uses: the one asked for, else one per logical CPU,
/// held at `u32::MAX` on a machine that reports more.
pub open spec fn resolved_threads(threads: Option<u32>, cpus: nat) -> nat {
    match threads {
        Some(n) => n as nat,
        None => if cpus > u32::MAX { u32::MAX as nat } else { cpus },
    }
}

/// Connection loops per thread: the workers shared out evenly, and never fewer
/// than one.
pub open spec fn connections_per_thread_of(workers: nat, num_threads: nat) -> nat
    recommends
        num_threads > 0,
{
    if workers / num_threads == 0 {
        1
    } else {
        workers / num_threads
    }
}

/// Nanoseconds between two requests of the whole run at `rate` requests a
/// second; zero for an unpaced run.
pub open spec fn tick_of(rate: Option<u32>) -> nat
    recommends
        rate != Some(0u32),
{
    match rate {
        Some(r) => (NANOS_PER_SEC as nat) / (r as nat),
        None => 0,
    }
}

/// Nanoseconds one connection loop waits between two of its own requests so
/// that all loops together keep to `rate`.
pub open spec fn connection_delay_of(rate: Option<u32>, workers: nat, num_threads: nat) -> nat
    recommends
        rate != Some(0u32),
        num_threads > 0,
{
    tick_of(rate) * connections_per_thread_of(workers, num_threads) * num_threads
}

/// Requests each connection loop completes before it stops, where the run has
/// a limit: the limit shared out evenly and rounded down.
pub open spec fn limit_per_connection_of(limit: Option<u32>, workers: u32) -> Option<u32>
    recommends
        limit is Some ==> workers > 0,
{
    match limit {
        Some(l) => Some(l / workers),
        None => None,
    }
}

impl ConfigView {
    /// Whether `num_threads` is a thread count this configuration can run on:
    /// the one it asks for, or any positive count where it asks for none.
    pub open spec fn runs_on(self, num_threads: u32) -> bool {
        match self.threads {
            Some(n) => num_threads == n,
            None => num_threads >= 1,
        }
    }

    /// Whether every derived quantity is defined: no count that is divided by
    /// is zero, and each connection makes at least one exchange.
    pub open spec fn valid(self) -> bool {
        &&& self.threads != Some(0u32)
        &&& self.rate != Some(0u32)
        &&& self.repeat >= 1
        &&& (self.limit is Some ==> self.workers >= 1)
    }

    /// The settings of a run against `target` with everything optional unset.
    pub open spec fn initial(target: Endpoint) -> ConfigView {
        ConfigView {
            target,
            workers: DEFAULT_WORKERS,
            rate: None,
            duration: None,
            threads: None,
            connect_timeout: None,
            read_timeout: None,
            limit: None,
            repeat: 1,
            fuzz_path: None,
        }
    }

    /// These settings with `repeat` exchanges on each connection, and with
    /// one where none is asked for.
    pub open spec fn with_repeat(self, repeat: u32) -> ConfigView {
        ConfigView { repeat: if repeat == 0 { 1 } else { repeat }, ..self }
    }

    /// What a builder hands out when it starts from the target of these
    /// settings and is then given each other setting in turn.
    pub open spec fn rebuilt(self) -> ConfigView {
        let built = ConfigView::initial(self.target);
        let built = ConfigView { workers: self.workers, ..built };
        let built = ConfigView { rate: self.rate, ..built };
        let built = ConfigView { duration: self.duration, ..built };
        let built = ConfigView { threads: self.threads, ..built };
        let built = ConfigView { connect_timeout: self.connect_timeout, ..built };
        let built = ConfigView { read_timeout: self.read_timeout, ..built };
        let built = ConfigView { limit: self.limit, ..built };
        let built = built.with_repeat(self.repeat);
        ConfigView { fuzz_path: self.fuzz_path, ..built }
    }
}

/// Building a configuration anew from its own settings gives it back, field
/// for field, so long as it asks for at least one exchange per connection. (A
/// builder never hands out a configuration that asks for none.)
pub proof fn lemma_builder_round_trip(config: ConfigView)
    requires
        config.repeat >= 1,
    ensures
        config.rebuilt() == config,
{
}

impl Config {
    /// The settings of a run against `target` with everything optional unset:
    /// a hundred workers, one exchange per connection.
    pub fn new(target: Endpoint) -> (config: Config)
        ensures
            config@ == ConfigView::initial(target),
    {
        Config {
            target,
            workers: DEFAULT_WORKERS,
            rate: None,
            limit: None,
            repeat: 1,
            duration: None,
            threads: None,
            read_timeout: None,
            connect_timeout: None,
            fuzz_path: None,
        }
    }

    /// The address requests are sent to.
    pub fn addr(&self) -> (target: Endpoint)
        ensures
            target == self.target,
    {
        self.target
    }

    /// Whether the derived quantities of this configuration are all defined.
    pub fn is_valid(&self) -> (valid: bool)
        ensures
            valid == self@.valid(),
    {
        let threads_ok = match self.threads {
            Some(n) => n != 0,
            None => true,
        };
        let rate_ok = match self.rate {
            Some(r) => r != 0,
            None => true,
        };
        let limit_ok = match self.limit {
            Some(_) => self.workers >= 1,
            None => true,
        };
        threads_ok && rate_ok && self.repeat >= 1 && limit_ok
    }

    /// The thread count on a machine with `cpus` logical CPUs.
    pub fn num_threads_on(&self, cpus: usize) -> (n: u32)
        ensures
            n == resolved_threads(self.threads, cpus as nat),
    {
        match self.threads {
            Some(n) => n,
            None => if cpus > u32::MAX as usize {
                u32::MAX
            } else {
                cpus as u32
            },
        }
    }

    /// Number of threads asked for, or one per logical CPU of this machine.
    ///
    /// Where the count is left to the machine, any positive count may come
    /// back.
    pub fn num_threads(&self) -> (n: u32)
        ensures
            match self.threads {
                Some(t) => n == t,
                None => n >= 1,
            },
    {
        match self.threads {
            Some(n) => n,
            None => self.num_threads_on(logical_cpus()),
        }
    }

    /// Number of connection loops each of `num_threads` threads maintains.
    pub fn connections_per_thread_for(&self, num_threads: u32) -> (n: u32)
        requires
            num_threads >= 1,
        ensures
            n == connections_per_thread_of(self.workers as nat, num_threads as nat),
            n >= 1,
    {
        let share: u32 = self.workers / num_threads;
        if share == 0 {
            1
        } else {
            share
        }
    }

    /// Number of connection loops each thread should maintain. Never less
    /// than one: with more threads than workers each thread still runs a loop.
    pub fn connections_per_thread(&self) -> (n: u32)
        requires
            self.threads != Some(0u32),
        ensures
            exists|num_threads: u32| #[trigger]
                self@.runs_on(num_threads) && n == connections_per_thread_of(
                    self.workers as nat,
                    num_threads as nat,
                ),
            n >= 1,
    {
        let num_threads: u32 = self.num_threads();
        assert(self@.runs_on(num_threads));
        self.connections_per_thread_for(num_threads)
    }

    /// Target time between two requests of the whole run.
    pub fn tick_delay(&self) -> (tick: Span)
        requires
            self.rate != Some(0u32),
        ensures
            tick@ == tick_of(self.rate),
            tick@ <= NANOS_PER_SEC,
    {
        match self.rate {
            Some(rate) => Span::from_nanos(NANOS_PER_SEC / (rate as u128)),
            None => Span::zero(),
        }
    }

    /// The time one connection loop waits between two of its requests when the
    /// run is spread over `num_threads` threads.
    pub fn connection_delay_for(&self, num_threads: u32) -> (delay: Span)
        requires
            self.rate != Some(0u32),
            num_threads >= 1,
        ensures
            delay@ == connection_delay_of(self.rate, self.workers as nat, num_threads as nat),
    {
        let tick: u128 = self.tick_delay().as_nanos();
        let per_thread: u128 = self.connections_per_thread_for(num_threads) as u128;
        let threads: u128 = num_threads as u128;
        assert(tick * per_thread <= NANOS_PER_SEC * 0x1_0000_0000) by (nonlinear_arith)
            requires
                tick <= NANOS_PER_SEC,
                per_thread <= 0x1_0000_0000,
        ;
        assert(tick * per_thread * threads <= NANOS_PER_SEC * 0x1_0000_0000 * 0x1_0000_0000)
            by (nonlinear_arith)
            requires
                tick * per_thread <= NANOS_PER_SEC * 0x1_0000_0000,
                threads <= 0x1_0000_0000,
        ;
        Span::from_nanos(tick * per_thread * threads)
    }

    /// The amount a single connection should wait between loops in order to
    /// maintain the defined rate. Zero if there is no rate.
    pub fn connection_delay(&self) -> (delay: Span)
        requires
            self.rate != Some(0u32),
            self.threads != Some(0u32),
        ensures
            exists|num_threads: u32| #[trigger]
                self@.runs_on(num_threads) && delay@ == connection_delay_of(
                    self.rate,
                    self.workers as nat,
                    num_threads as nat,
                ),
            self.rate is None ==> delay@ == 0,
    {
        let num_threads: u32 = self.num_threads();
        assert(self@.runs_on(num_threads));
        let delay = self.connection_delay_for(num_threads);
        assert(self.rate is None ==> delay@ == 0) by (nonlinear_arith)
            requires
                delay@ == tick_of(self.rate) * connections_per_thread_of(
                    self.workers as nat,
                    num_threads as nat,
                ) * num_threads,
                self.rate is None ==> tick_of(self.rate) == 0,
        ;
        delay
    }

    /// The number of requests each connection loop completes before stopping.
    /// A limit that the workers do not divide is rounded down.
    pub fn limit_per_connection(&self) -> (per_connection: Option<u32>)
        requires
            self.limit is Some ==> self.workers >= 1,
        ensures
            per_connection == limit_per_connection_of(self.limit, self.workers),
    {
        match self.limit {
            None => None,
            Some(n) => Some(n / self.workers),
        }
    }
}

/// Builds a [`Config`] setting by setting.
pub struct ConfigBuilder {
    config: Config,
}

impl View for ConfigBuilder {
    type V = ConfigView;

    closed spec fn view(&self) -> ConfigView {
        self.config@
    }
}

impl ConfigBuilder {
    #[verifier::type_invariant]
    spec fn repeats(self) -> bool {
        self.config.repeat >= 1
    }

    /// A builder that starts from the defaults for `target`.
    pub fn new(target: Endpoint) -> (builder: ConfigBuilder)
        ensures
            builder@ == ConfigView::initial(target),
    {
        ConfigBuilder { config: Config::new(target) }
    }

    /// A builder that starts from the target of `config` and is given each
    /// other setting of it in turn. What it builds is `config` again, but for
    /// a `repeat` of zero, which it raises to one.
    pub fn from_config(config: Config) -> (builder: ConfigBuilder)
        ensures
            builder@ == config@.rebuilt(),
            config.repeat >= 1 ==> builder@ == config@,
    {
        ConfigBuilder::new(config.target).connections(config.workers).rate(config.rate).duration(
            config.duration,
        ).threads(config.threads).connect_timeout(config.connect_timeout).read_timeout(
            config.read_timeout,
        ).limit(config.limit).repeat(config.repeat).fuzz_path(config.fuzz_path)
    }

    /// The configuration built. It asks for at least one exchange on each
    /// connection.
    pub fn build(self) -> (config: Config)
        ensures
            config@ == self@,
            config.repeat >= 1,
    {
        proof {
            use_type_invariant(&self);
        }
        self.config
    }

    /// Sets the number of connection loops.
    pub fn connections(self, connections: u32) -> (builder: ConfigBuilder)
        ensures
            builder@ == (ConfigView { workers: connections, ..self@ }),
    {
        proof {
            use_type_invariant(&self);
        }
        let mut config = self.config;
        config.workers = connections;
        ConfigBuilder { config }
    }

    /// Sets or clears the rate.
    pub fn rate(self, rate: Option<u32>) -> (builder: ConfigBuilder)
        ensures
            builder@ == (ConfigView { rate, ..self@ }),
    {
        proof {
            use_type_invariant(&self);
        }
        let mut config = self.config;
        config.rate = rate;
        ConfigBuilder { config }
    }

    /// Sets or clears the duration.
    pub fn duration(self, duration: Option<Span>) -> (builder: ConfigBuilder)
        ensures
            builder@ == (ConfigView { duration, ..self@ }),
    {
        proof {
            use_type_invariant(&self);
        }
        let mut config = self.config;
        config.duration = duration;
        ConfigBuilder { config }
    }

    /// Sets or clears the number of threads.
    pub fn threads(self, threads: Option<u32>) -> (builder: ConfigBuilder)
        ensures
            builder@ == (ConfigView { threads, ..self@ }),
    {
        proof {
            use_type_invariant(&self);
        }
        let mut config = self.config;
        config.threads = threads;
        ConfigBuilder { config }
    }

    /// Sets or clears the deadline for connecting, in milliseconds.
    pub fn connect_timeout(self, connect_timeout: Option<u32>) -> (builder: ConfigBuilder)
        ensures
            builder@ == (ConfigView { connect_timeout, ..self@ }),
    {
        proof {
            use_type_invariant(&self);
        }
        let mut config = self.config;
        config.connect_timeout = connect_timeout;
        ConfigBuilder { config }
    }

    /// Sets or clears the deadline for a read, in milliseconds.
    pub fn read_timeout(self, read_timeout: Option<u32>) -> (builder: ConfigBuilder)
        ensures
            builder@ == (ConfigView { read_timeout, ..self@ }),
    {
        proof {
            use_type_invariant(&self);
        }
        let mut config = self.config;
        config.read_timeout = read_timeout;
        ConfigBuilder { config }
    }

    /// Sets or clears the limit on completed requests.
    pub fn limit(self, limit: Option<u32>) -> (builder: ConfigBuilder)
        ensures
            builder@ == (ConfigView { limit, ..self@ }),
    {
        proof {
            use_type_invariant(&self);
        }
        let mut config = self.config;
        config.limit = limit;
        ConfigBuilder { config }
    }

    /// Sets the number of exchanges on each connection. Zero becomes one.
    pub fn repeat(self, repeat: u32) -> (builder: ConfigBuilder)
        ensures
            builder@ == self@.with_repeat(repeat),
    {
        let mut config = self.config;
        config.repeat = if repeat == 0 {
            1
        } else {
            repeat
        };
        ConfigBuilder { config }
    }

    /// Sets or clears the path of the fuzzing configuration.
    pub fn fuzz_path(self, path: Option<String>) -> (builder: ConfigBuilder)
        ensures
            builder@ == (ConfigView { fuzz_path: path.deep_view(), ..self@ }),
    {
        proof {
            use_type_invariant(&self);
        }
        let mut config = self.config;
        config.fuzz_path = path;
        ConfigBuilder { config }
    }
}

/// Settings of a pool of request loops.
pub struct Settings {
    pub workers: usize,
}

} // verus!
