use clobber::{Balance, WorkerPool, WorkerPoolCommand, WorkerPoolEvent};

fn started(balance: Balance<(usize, usize)>) -> Vec<(usize, usize)> {
    match balance {
        Balance::Start(tasks) => tasks,
        Balance::Stop(surplus) => panic!("asked to stop {} workers", surplus),
    }
}

#[test]
fn new_pool_runs_nothing() {
    let pool: WorkerPool<u8> = WorkerPool::new(2);
    assert_eq!(pool.cur_workers(), 0);
    assert_eq!(pool.target_workers(), 2);
    assert!(!pool.at_target_worker_count());
    assert!(!pool.working());
    let idle: WorkerPool<u8> = WorkerPool::new(0);
    assert!(idle.at_target_worker_count());
}

#[test]
fn pool_starts_the_oldest_tasks_up_to_its_target() {
    let mut pool = WorkerPool::new(2);
    pool.push((1, 10));
    pool.push((3, 10));
    pool.push((6, 2));
    assert_eq!(started(pool.balance_workers()), vec![(1, 10), (3, 10)]);
    assert_eq!(pool.cur_workers(), 2);
    assert!(pool.at_target_worker_count());
    assert!(pool.working());
    assert_eq!(started(pool.balance_workers()), vec![]);
    assert_eq!(pool.cur_workers(), 2);
}

#[test]
fn pool_replaces_a_worker_that_is_done() {
    let mut pool = WorkerPool::new(2);
    pool.push((1, 10));
    pool.push((3, 10));
    pool.push((6, 2));
    pool.balance_workers();
    assert!(pool.handle_event(WorkerPoolEvent::WorkerDone));
    assert_eq!(pool.cur_workers(), 1);
    assert_eq!(started(pool.balance_workers()), vec![(6, 2)]);
    assert_eq!(pool.cur_workers(), 2);
    assert!(pool.handle_event(WorkerPoolEvent::WorkerDone));
    assert!(pool.handle_event(WorkerPoolEvent::WorkerDone));
    assert_eq!(started(pool.balance_workers()), vec![]);
    assert!(!pool.working());
}

#[test]
fn pool_with_few_tasks_starts_them_all() {
    let mut pool = WorkerPool::new(5);
    pool.push((7, 7));
    assert_eq!(started(pool.balance_workers()), vec![(7, 7)]);
    assert_eq!(pool.cur_workers(), 1);
    assert!(!pool.at_target_worker_count());
}

#[test]
fn stop_command_ends_the_run_and_changes_nothing() {
    let mut pool = WorkerPool::new(1);
    pool.push((1, 1));
    pool.balance_workers();
    assert!(!pool.handle_event(WorkerPoolEvent::Command(WorkerPoolCommand::Stop)));
    assert_eq!(pool.cur_workers(), 1);
    assert_eq!(pool.target_workers(), 1);
}

#[test]
fn lowered_target_asks_the_surplus_to_stop() {
    let mut pool = WorkerPool::new(3);
    for task in 0..5 {
        pool.push((task, task));
    }
    pool.balance_workers();
    pool.set_target_workers(1);
    assert_eq!(pool.target_workers(), 1);
    assert_eq!(pool.cur_workers(), 3);
    match pool.balance_workers() {
        Balance::Stop(surplus) => assert_eq!(surplus, 2),
        Balance::Start(tasks) => panic!("started {} tasks", tasks.len()),
    }
    assert_eq!(pool.cur_workers(), 3);
    pool.handle_event(WorkerPoolEvent::WorkerDone);
    pool.handle_event(WorkerPoolEvent::WorkerDone);
    assert!(pool.at_target_worker_count());
    assert_eq!(started(pool.balance_workers()), vec![]);
    pool.set_target_workers(4);
    assert_eq!(started(pool.balance_workers()), vec![(3, 3), (4, 4)]);
}
