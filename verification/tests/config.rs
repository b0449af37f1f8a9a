use clobber::config::DEFAULT_WORKERS;
use clobber::{Config, ConfigBuilder, Endpoint, Host, Plan, Span};

fn localhost() -> Endpoint {
    Endpoint { host: Host::V4(0x7f00_0001), port: 7878 }
}

fn paced(workers: u32, threads: u32, rate: u32) -> Config {
    ConfigBuilder::new(localhost())
        .connections(workers)
        .threads(Some(threads))
        .rate(Some(rate))
        .build()
}

#[test]
fn stub_test() {}

#[test]
fn new_config_has_defaults() {
    let config = Config::new(localhost());
    assert_eq!(config.target, localhost());
    assert_eq!(config.workers, 100);
    assert_eq!(config.workers, DEFAULT_WORKERS);
    assert_eq!(config.rate, None);
    assert_eq!(config.limit, None);
    assert_eq!(config.repeat, 1);
    assert_eq!(config.duration, None);
    assert_eq!(config.threads, None);
    assert_eq!(config.read_timeout, None);
    assert_eq!(config.connect_timeout, None);
    assert_eq!(config.fuzz_path, None);
    assert_eq!(config.addr(), localhost());
}

#[test]
fn builder_starts_from_defaults() {
    let config = ConfigBuilder::new(localhost()).build();
    assert_eq!(config.workers, 100);
    assert_eq!(config.repeat, 1);
    assert_eq!(config.rate, None);
    assert_eq!(config.fuzz_path, None);
}

#[test]
fn builder_sets_each_field() {
    let v6 = Endpoint { host: Host::V6(1), port: 8000 };
    let config = ConfigBuilder::new(v6)
        .connections(7)
        .rate(Some(11))
        .duration(Some(Span::from_secs(3)))
        .threads(Some(2))
        .connect_timeout(Some(250))
        .read_timeout(Some(500))
        .limit(Some(40))
        .repeat(4)
        .fuzz_path(Some(String::from("tests/fuzz_config.toml")))
        .build();
    assert_eq!(config.target, v6);
    assert_eq!(config.workers, 7);
    assert_eq!(config.rate, Some(11));
    assert_eq!(config.duration, Some(Span::from_millis(3000)));
    assert_eq!(config.threads, Some(2));
    assert_eq!(config.connect_timeout, Some(250));
    assert_eq!(config.read_timeout, Some(500));
    assert_eq!(config.limit, Some(40));
    assert_eq!(config.repeat, 4);
    assert_eq!(config.fuzz_path, Some(String::from("tests/fuzz_config.toml")));
}

#[test]
fn builder_later_setting_wins() {
    let config = ConfigBuilder::new(localhost()).rate(Some(5)).rate(None).limit(Some(1)).build();
    assert_eq!(config.rate, None);
    assert_eq!(config.limit, Some(1));
}

#[test]
fn builder_turns_repeat_zero_into_one() {
    assert_eq!(ConfigBuilder::new(localhost()).repeat(0).build().repeat, 1);
    assert_eq!(ConfigBuilder::new(localhost()).repeat(1).build().repeat, 1);
    assert_eq!(ConfigBuilder::new(localhost()).repeat(9).build().repeat, 9);
}

#[test]
fn builder_round_trip_gives_the_config_back() {
    let config = ConfigBuilder::new(localhost())
        .connections(12)
        .rate(Some(30))
        .duration(Some(Span::from_millis(1500)))
        .threads(Some(3))
        .connect_timeout(Some(100))
        .read_timeout(None)
        .limit(Some(24))
        .repeat(2)
        .fuzz_path(Some(String::from("fuzz.toml")))
        .build();
    let again = ConfigBuilder::from_config(config.clone()).build();
    assert_eq!(again.target, config.target);
    assert_eq!(again.workers, config.workers);
    assert_eq!(again.rate, config.rate);
    assert_eq!(again.duration, config.duration);
    assert_eq!(again.threads, config.threads);
    assert_eq!(again.connect_timeout, config.connect_timeout);
    assert_eq!(again.read_timeout, config.read_timeout);
    assert_eq!(again.limit, config.limit);
    assert_eq!(again.repeat, config.repeat);
    assert_eq!(again.fuzz_path, config.fuzz_path);
}

#[test]
fn builder_round_trip_raises_a_repeat_of_zero() {
    let mut config = Config::new(localhost());
    config.repeat = 0;
    let again = ConfigBuilder::from_config(config).build();
    assert_eq!(again.repeat, 1);
    assert_eq!(again.workers, 100);
}

#[test]
fn validity_names_what_cannot_be_divided_by() {
    assert!(Config::new(localhost()).is_valid());
    assert!(paced(10, 2, 10).is_valid());
    assert!(!ConfigBuilder::new(localhost()).threads(Some(0)).build().is_valid());
    assert!(!ConfigBuilder::new(localhost()).rate(Some(0)).build().is_valid());
    assert!(!ConfigBuilder::new(localhost()).connections(0).limit(Some(5)).build().is_valid());
    assert!(ConfigBuilder::new(localhost()).connections(0).build().is_valid());
    let mut no_exchange = Config::new(localhost());
    no_exchange.repeat = 0;
    assert!(!no_exchange.is_valid());
}

#[test]
fn explicit_threads_are_taken_as_given() {
    let config = ConfigBuilder::new(localhost()).threads(Some(6)).build();
    assert_eq!(config.num_threads(), 6);
    assert_eq!(config.num_threads_on(64), 6);
}

#[test]
fn unset_threads_default_to_the_cpu_count() {
    let config = Config::new(localhost());
    assert_eq!(config.num_threads_on(8), 8);
    assert_eq!(config.num_threads_on(1), 1);
    assert_eq!(config.num_threads() as usize, num_cpus::get());
    assert!(config.num_threads() >= 1);
}

#[test]
fn cpu_counts_past_u32_are_held_at_its_maximum() {
    let config = Config::new(localhost());
    assert_eq!(config.num_threads_on(usize::MAX), u32::MAX);
    assert_eq!(config.num_threads_on(u32::MAX as usize), u32::MAX);
}

#[test]
fn connections_are_shared_out_evenly() {
    let config = Config::new(localhost());
    assert_eq!(config.connections_per_thread_for(4), 25);
    assert_eq!(config.connections_per_thread_for(3), 33);
    assert_eq!(config.connections_per_thread_for(100), 1);
    assert_eq!(config.connections_per_thread_for(1), 100);
    let explicit = ConfigBuilder::new(localhost()).connections(10).threads(Some(2)).build();
    assert_eq!(explicit.connections_per_thread(), 5);
}

#[test]
fn more_threads_than_workers_leaves_one_connection_each() {
    let config = ConfigBuilder::new(localhost()).connections(3).threads(Some(8)).build();
    assert_eq!(config.connections_per_thread(), 1);
    assert_eq!(config.connections_per_thread_for(4), 1);
    let none = ConfigBuilder::new(localhost()).connections(0).build();
    assert_eq!(none.connections_per_thread_for(2), 1);
}

#[test]
fn spawned_connections_cover_the_workers_when_threads_divide_them() {
    let evenly: [(u32, u32); 8] =
        [(100, 4), (10, 1), (10, 2), (10, 5), (10, 10), (3, 8), (1, 2), (0, 3)];
    for (workers, threads) in evenly {
        let config =
            ConfigBuilder::new(localhost()).connections(workers).threads(Some(threads)).build();
        let spawned = config.connections_per_thread() as u64 * config.num_threads() as u64;
        assert!(spawned >= workers as u64, "{} workers on {} threads", workers, threads);
    }
}

#[test]
fn rounding_drops_the_remainder_of_workers() {
    let config = ConfigBuilder::new(localhost()).connections(10).threads(Some(3)).build();
    assert_eq!(config.connections_per_thread() * config.num_threads(), 9);
}

#[test]
fn tick_is_a_second_over_the_rate() {
    assert_eq!(paced(1, 1, 10).tick_delay(), Span::from_millis(100));
    assert_eq!(paced(1, 1, 1).tick_delay(), Span::from_secs(1));
    assert_eq!(paced(1, 1, 3).tick_delay(), Span::from_nanos(333_333_333));
    assert_eq!(paced(1, 1, 1_000_000_000).tick_delay(), Span::from_nanos(1));
    assert_eq!(paced(1, 1, u32::MAX).tick_delay(), Span::zero());
    assert_eq!(Config::new(localhost()).tick_delay(), Span::zero());
}

#[test]
fn connection_delay_is_tick_times_connections() {
    assert_eq!(paced(10, 1, 10).connection_delay(), Span::from_secs(1));
    assert_eq!(paced(1, 1, 10).connection_delay(), Span::from_millis(100));
    assert_eq!(paced(20, 4, 10).connection_delay(), Span::from_secs(2));
    assert_eq!(paced(200, 4, 1000).connection_delay(), Span::from_millis(200));
    assert_eq!(paced(10, 3, 10).connection_delay_for(3), Span::from_millis(900));
    assert_eq!(paced(3, 8, 10).connection_delay(), Span::from_millis(800));
}

#[test]
fn connection_delay_is_zero_without_a_rate() {
    let config = ConfigBuilder::new(localhost()).connections(10).threads(Some(2)).build();
    assert_eq!(config.connection_delay(), Span::zero());
    assert!(config.connection_delay().is_zero());
    assert_eq!(Config::new(localhost()).connection_delay(), Span::zero());
}

#[test]
fn connection_delay_does_not_depend_on_threads() {
    let one = paced(10, 1, 10).connection_delay();
    for threads in [1u32, 2, 5, 10] {
        assert_eq!(paced(10, threads, 10).connection_delay(), one);
        assert_eq!(paced(10, 1, 10).connection_delay_for(threads), one);
    }
    assert_eq!(one.as_nanos() * 10, 100_000_000 * 10 * 10);
}

#[test]
fn doubling_workers_or_halving_rate_doubles_the_delay() {
    let base = paced(10, 2, 10).connection_delay().as_nanos();
    assert_eq!(paced(20, 2, 10).connection_delay().as_nanos(), 2 * base);
    assert_eq!(paced(10, 2, 5).connection_delay().as_nanos(), 2 * base);
    assert_eq!(paced(10, 2, 20).connection_delay().as_nanos() * 2, base);
}

#[test]
fn largest_connection_delay_fits() {
    let config = paced(u32::MAX, 1, 1);
    assert_eq!(
        config.connection_delay().as_nanos(),
        1_000_000_000u128 * u32::MAX as u128
    );
    let wide = paced(1, u32::MAX, 1);
    assert_eq!(
        wide.connection_delay().as_nanos(),
        1_000_000_000u128 * u32::MAX as u128
    );
}

#[test]
fn limit_is_shared_out_and_rounded_down() {
    let limited = |workers: u32, limit: u32| {
        ConfigBuilder::new(localhost()).connections(workers).limit(Some(limit)).build()
    };
    assert_eq!(limited(10, 20).limit_per_connection(), Some(2));
    assert_eq!(limited(10, 25).limit_per_connection(), Some(2));
    assert_eq!(limited(10, 9).limit_per_connection(), Some(0));
    assert_eq!(limited(1, 5).limit_per_connection(), Some(5));
    assert_eq!(limited(3, u32::MAX).limit_per_connection(), Some(u32::MAX / 3));
    assert_eq!(Config::new(localhost()).limit_per_connection(), None);
    assert_eq!(ConfigBuilder::new(localhost()).connections(0).build().limit_per_connection(), None);
}

#[test]
fn plan_holds_the_derived_quantities() {
    let config = ConfigBuilder::new(localhost())
        .connections(10)
        .threads(Some(2))
        .rate(Some(10))
        .limit(Some(20))
        .duration(Some(Span::from_secs(9)))
        .repeat(3)
        .build();
    let plan = Plan::new(&config);
    assert_eq!(plan, Plan::of(&config, 2));
    assert_eq!(plan.num_threads, 2);
    assert_eq!(plan.connections_per_thread, 5);
    assert!(plan.paced);
    assert_eq!(plan.tick, Span::from_millis(100));
    assert_eq!(plan.connection_delay, Span::from_secs(1));
    assert_eq!(plan.limit_per_connection, Some(2));
    assert_eq!(plan.duration, Some(Span::from_secs(9)));
    assert_eq!(plan.repeat, 3);
}

#[test]
fn plan_of_an_unpaced_run_has_no_delay() {
    let config = ConfigBuilder::new(localhost()).connections(4).threads(Some(2)).build();
    let plan = Plan::new(&config);
    assert!(!plan.paced);
    assert_eq!(plan.tick, Span::zero());
    assert_eq!(plan.connection_delay, Span::zero());
    assert_eq!(plan.limit_per_connection, None);
    assert_eq!(plan.duration, None);
    assert_eq!(plan.thread_stagger(), Span::zero());
    assert_eq!(plan.worker_stagger(0), Span::zero());
    assert_eq!(plan.worker_stagger(1), Span::zero());
}

#[test]
fn plan_on_this_machine_uses_its_cpu_count() {
    let config = Config::new(localhost());
    let plan = Plan::new(&config);
    assert_eq!(plan.num_threads as usize, num_cpus::get());
    assert_eq!(plan, Plan::of(&config, plan.num_threads));
}

#[test]
fn workers_of_a_thread_start_a_round_of_ticks_apart() {
    let plan = Plan::of(&paced(8, 4, 10), 4);
    assert_eq!(plan.thread_stagger(), Span::from_millis(100));
    assert_eq!(plan.worker_stagger(0), Span::zero());
    assert_eq!(plan.worker_stagger(1), Span::from_millis(400));
    let single = Plan::of(&paced(10, 1, 10), 1);
    assert_eq!(single.worker_stagger(9), Span::from_millis(900));
    assert_eq!(
        single.worker_stagger(9).as_nanos() * single.connections_per_thread as u128,
        9 * single.connection_delay.as_nanos()
    );
}

#[test]
fn every_worker_starts_in_a_slot_of_its_own() {
    let plan = Plan::of(&paced(8, 4, 10), 4);
    let tick = plan.tick.as_nanos();
    let mut starts: Vec<u128> = Vec::new();
    for thread in 0..plan.num_threads {
        for index in 0..plan.connections_per_thread {
            starts.push(thread as u128 * plan.thread_stagger().as_nanos()
                + plan.worker_stagger(index).as_nanos());
        }
    }
    starts.sort();
    let expected: Vec<u128> = (0..8u128).map(|slot| slot * tick).collect();
    assert_eq!(starts, expected);
}

#[test]
fn plans_made_from_a_config_can_be_carried_out() {
    assert!(Plan::of(&paced(10, 2, 10), 2).is_wf());
    assert!(Plan::of(&Config::new(localhost()), 7).is_wf());
    assert!(Plan::new(&paced(3, 8, 1)).is_wf());
}

#[test]
fn plans_without_a_thread_or_an_exchange_cannot_be_carried_out() {
    let plan = Plan::of(&paced(10, 2, 10), 2);
    assert!(!Plan { num_threads: 0, ..plan }.is_wf());
    assert!(!Plan { connections_per_thread: 0, ..plan }.is_wf());
    assert!(!Plan { repeat: 0, ..plan }.is_wf());
    assert!(!Plan { tick: Span::from_nanos(1_000_000_001), ..plan }.is_wf());
    assert!(Plan { tick: Span::from_secs(1), ..plan }.is_wf());
}
