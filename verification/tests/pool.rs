use std::cell::Cell;
use std::rc::Rc;
use std::sync::{Arc, Mutex};
use std::time::{Duration, Instant};

use webserver::pool::ThreadPool;
use webserver::worker::{StopReason, WorkerAction, WorkerState};

type Job = Box<dyn FnOnce()>;

/// Plays one worker to its end as its thread would: it asks, runs what it
/// gets, reports, and asks again. Returns why it stopped, or `None` if it
/// was told to wait.
fn play_worker(pool: &mut ThreadPool<Job>, id: usize) -> Option<StopReason> {
    loop {
        match pool.next_action(id) {
            WorkerAction::Run(job) => {
                job();
                pool.job_finished(id);
            }
            WorkerAction::Poll => {}
            WorkerAction::Wait => return None,
            WorkerAction::Stop(reason) => return Some(reason),
        }
    }
}

/// Ends the pool and waits for its workers, in the order that teardown
/// gives.
fn drop_pool(mut pool: ThreadPool<Job>) -> Vec<StopReason> {
    let mut reasons = Vec::new();
    for id in pool.teardown() {
        if pool.worker(id).state == WorkerState::Idle {
            reasons.push(play_worker(&mut pool, id).unwrap());
        }
    }
    assert!(pool.is_finished());
    reasons
}

/// Lets the workers take turns, one step each, until none can go on.
fn take_turns(pool: &mut ThreadPool<Job>) {
    let mut running: Vec<Option<Job>> = (0..pool.size()).map(|_| None).collect();
    loop {
        let mut moved = false;
        for id in 0..pool.size() {
            match pool.worker(id).state {
                WorkerState::Idle => match pool.next_action(id) {
                    WorkerAction::Run(job) => {
                        running[id] = Some(job);
                        moved = true;
                    }
                    WorkerAction::Stop(_) => moved = true,
                    WorkerAction::Wait | WorkerAction::Poll => {}
                },
                WorkerState::Executing => {
                    let job = running[id].take().unwrap();
                    job();
                    pool.job_finished(id);
                    moved = true;
                }
                WorkerState::Terminated => {}
            }
        }
        if !moved {
            return;
        }
    }
}

fn counting_job(counter: &Arc<Mutex<i32>>) -> Job {
    let counter = Arc::clone(counter);
    Box::new(move || {
        let mut count = counter.lock().unwrap();
        *count += 1;
    })
}

#[test]
fn test_thread_pool_executes_job() {
    let mut pool: ThreadPool<Job> = ThreadPool::new(2);
    let counter = Arc::new(Mutex::new(0));

    pool.execute(counting_job(&counter));

    take_turns(&mut pool);

    let count = counter.lock().unwrap();
    assert_eq!(*count, 1);
}

#[test]
fn test_thread_pool_executes_multiple_jobs() {
    let mut pool: ThreadPool<Job> = ThreadPool::new(2);
    let counter = Arc::new(Mutex::new(0));

    for _ in 0..5 {
        pool.execute(counting_job(&counter));
    }

    take_turns(&mut pool);

    let count = counter.lock().unwrap();
    assert_eq!(*count, 5);
}

#[test]
fn test_thread_pool_graceful_shutdown() {
    let mut pool: ThreadPool<Job> = ThreadPool::new(2);
    let counter = Arc::new(Mutex::new(0));

    pool.execute(counting_job(&counter));

    drop_pool(pool);

    let count = counter.lock().unwrap();
    assert_eq!(*count, 1);
}

#[test]
fn five_jobs_on_two_workers_count_to_five_after_teardown() {
    let mut pool: ThreadPool<Job> = ThreadPool::new(2);
    let counter = Arc::new(Mutex::new(0));
    for _ in 0..5 {
        pool.execute(counting_job(&counter));
    }
    let reasons = drop_pool(pool);
    assert_eq!(*counter.lock().unwrap(), 5);
    assert_eq!(reasons, vec![StopReason::TerminateReceived; 2]);
}

#[test]
fn one_job_then_immediate_teardown_runs_it_exactly_once() {
    let mut pool: ThreadPool<Job> = ThreadPool::new(2);
    let counter = Arc::new(Mutex::new(0));
    pool.execute(counting_job(&counter));
    assert_eq!(*counter.lock().unwrap(), 0);
    drop_pool(pool);
    assert_eq!(*counter.lock().unwrap(), 1);
}

#[test]
fn slow_job_and_quick_job_on_one_worker_both_complete() {
    let mut pool: ThreadPool<Job> = ThreadPool::new(1);
    let flag_a = Arc::new(Mutex::new(false));
    let flag_b = Arc::new(Mutex::new(false));
    let a = Arc::clone(&flag_a);
    let b = Arc::clone(&flag_b);
    pool.execute(Box::new(move || {
        let begun = Instant::now();
        while begun.elapsed() < Duration::from_millis(50) {}
        *a.lock().unwrap() = true;
    }));
    pool.execute(Box::new(move || {
        *b.lock().unwrap() = true;
    }));
    drop_pool(pool);
    assert!(*flag_a.lock().unwrap());
    assert!(*flag_b.lock().unwrap());
}

#[test]
fn every_job_runs_once_for_any_size_and_any_number_of_jobs() {
    for size in 1..=4usize {
        for jobs in 0..=10i32 {
            let mut pool: ThreadPool<Job> = ThreadPool::new(size);
            let counter = Arc::new(Mutex::new(0));
            for _ in 0..jobs {
                pool.execute(counting_job(&counter));
            }
            let join = pool.teardown();
            assert_eq!(join, (0..size).collect::<Vec<_>>());
            take_turns(&mut pool);
            assert!(pool.is_finished());
            assert_eq!(pool.queued(), 0);
            assert_eq!(*counter.lock().unwrap(), jobs);
            for id in 0..size {
                assert_eq!(pool.worker(id).stopped, Some(StopReason::TerminateReceived));
            }
        }
    }
}

#[test]
fn jobs_are_handed_out_in_submission_order() {
    let mut pool: ThreadPool<Job> = ThreadPool::new(3);
    let order = Rc::new(Cell::new(Vec::new()));
    for n in 0..7 {
        let order = Rc::clone(&order);
        pool.execute(Box::new(move || {
            let mut seen = order.take();
            seen.push(n);
            order.set(seen);
        }));
    }
    for n in 0..7 {
        let id = n % 3;
        match pool.next_action(id) {
            WorkerAction::Run(job) => job(),
            _ => panic!("a job was queued"),
        }
        pool.job_finished(id);
    }
    assert_eq!(order.take(), vec![0, 1, 2, 3, 4, 5, 6]);
}

#[test]
fn pool_without_jobs_stops_every_worker_at_once() {
    let mut pool: ThreadPool<Job> = ThreadPool::new(3);
    assert_eq!(pool.teardown(), vec![0, 1, 2]);
    assert_eq!(pool.queued(), 3);
    for id in [2usize, 0, 1] {
        match pool.next_action(id) {
            WorkerAction::Stop(reason) => assert_eq!(reason, StopReason::TerminateReceived),
            _ => panic!("worker {id} did not stop"),
        }
    }
    assert!(pool.is_finished());
    assert_eq!(pool.queued(), 0);
}

#[test]
fn new_pool_has_idle_workers_numbered_in_creation_order() {
    let pool: ThreadPool<Job> = ThreadPool::new(4);
    assert_eq!(pool.size(), 4);
    assert!(pool.is_accepting());
    assert_eq!(pool.queued(), 0);
    assert!(!pool.is_finished());
    for id in 0..4 {
        let worker = pool.worker(id);
        assert_eq!(worker.id, id);
        assert_eq!(worker.state, WorkerState::Idle);
        assert_eq!(worker.stopped, None);
    }
}

#[test]
fn smallest_pool_has_one_worker_and_runs_jobs() {
    let mut pool: ThreadPool<Job> = ThreadPool::new(1);
    assert_eq!(pool.size(), 1);
    let counter = Arc::new(Mutex::new(0));
    for _ in 0..3 {
        pool.execute(counting_job(&counter));
    }
    assert_eq!(drop_pool(pool), vec![StopReason::TerminateReceived]);
    assert_eq!(*counter.lock().unwrap(), 3);
}

#[test]
fn teardown_sends_one_terminate_per_worker_and_only_once() {
    let mut pool: ThreadPool<Job> = ThreadPool::new(3);
    let counter = Arc::new(Mutex::new(0));
    pool.execute(counting_job(&counter));
    pool.execute(counting_job(&counter));
    assert_eq!(pool.queued(), 2);
    assert_eq!(pool.teardown(), vec![0, 1, 2]);
    assert!(!pool.is_accepting());
    assert_eq!(pool.queued(), 5);
    assert_eq!(pool.size(), 3);
    assert_eq!(pool.teardown(), Vec::<usize>::new());
    assert_eq!(pool.queued(), 5);
    take_turns(&mut pool);
    assert!(pool.is_finished());
    assert_eq!(*counter.lock().unwrap(), 2);
}

#[test]
fn submission_does_not_depend_on_a_free_worker() {
    let mut pool: ThreadPool<Job> = ThreadPool::new(1);
    let counter = Arc::new(Mutex::new(0));
    pool.execute(counting_job(&counter));
    let running = match pool.next_action(0) {
        WorkerAction::Run(job) => job,
        _ => panic!("a job was queued"),
    };
    assert_eq!(pool.worker(0).state, WorkerState::Executing);
    pool.execute(counting_job(&counter));
    pool.execute(counting_job(&counter));
    assert!(pool.is_accepting());
    assert_eq!(pool.queued(), 2);
    assert_eq!(pool.worker(0).state, WorkerState::Executing);
    running();
    pool.job_finished(0);
    assert_eq!(pool.worker(0).state, WorkerState::Idle);
    drop_pool(pool);
    assert_eq!(*counter.lock().unwrap(), 3);
}

#[test]
fn idle_worker_waits_while_the_pool_is_open_and_empty() {
    let mut pool: ThreadPool<Job> = ThreadPool::new(2);
    assert!(matches!(pool.next_action(0), WorkerAction::Wait));
    assert_eq!(pool.worker(0).state, WorkerState::Idle);
    assert_eq!(play_worker(&mut pool, 1), None);
}

#[test]
fn worker_that_takes_terminate_leaves_later_messages_to_others() {
    let mut pool: ThreadPool<Job> = ThreadPool::new(2);
    pool.teardown();
    assert!(matches!(
        pool.next_action(0),
        WorkerAction::Stop(StopReason::TerminateReceived)
    ));
    assert_eq!(pool.queued(), 1);
    assert_eq!(pool.worker(0).state, WorkerState::Terminated);
    assert_eq!(pool.worker(1).state, WorkerState::Idle);
    assert!(!pool.is_finished());
}

#[test]
fn worker_that_finds_the_lock_poisoned_stops_and_the_rest_go_on() {
    let mut pool: ThreadPool<Job> = ThreadPool::new(2);
    let counter = Arc::new(Mutex::new(0));
    pool.execute(counting_job(&counter));
    pool.lock_poisoned(0);
    assert_eq!(pool.worker(0).state, WorkerState::Terminated);
    assert_eq!(pool.worker(0).stopped, Some(StopReason::LockPoisoned));
    assert_eq!(pool.size(), 2);
    assert_eq!(pool.queued(), 1);
    let reasons = drop_pool(pool);
    assert_eq!(reasons, vec![StopReason::TerminateReceived]);
    assert_eq!(*counter.lock().unwrap(), 1);
}

#[test]
fn terminate_meant_for_a_lost_worker_stays_queued() {
    let mut pool: ThreadPool<Job> = ThreadPool::new(2);
    pool.lock_poisoned(1);
    pool.teardown();
    assert!(matches!(
        pool.next_action(0),
        WorkerAction::Stop(StopReason::TerminateReceived)
    ));
    assert_eq!(pool.queued(), 1);
    assert!(pool.is_finished());
}
