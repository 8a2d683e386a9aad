use std::cell::Cell;
use std::rc::Rc;

use server::{ControlMessage, PoolError, TaskOutcome, ThreadPool, WorkerState};

type Job = Box<dyn FnOnce()>;

fn counting_job(counter: &Rc<Cell<usize>>) -> Job {
    let counter = Rc::clone(counter);
    Box::new(move || counter.set(counter.get() + 1))
}

/// Lets the workers take turns, one step each, until all have terminated.
/// Returns the number of rounds it took.
fn drive(pool: &mut ThreadPool<Job>) -> usize {
    let mut rounds = 0;
    while !pool.all_terminated() {
        rounds += 1;
        assert!(rounds < 100_000, "the pool does not come to rest");
        for id in 0..pool.size() {
            match pool.receive(id) {
                Some(ControlMessage::Run(job)) => {
                    job();
                    assert_eq!(pool.finish(id, TaskOutcome::Completed), Ok(()));
                }
                Some(ControlMessage::Stop) => {}
                None => {}
            }
        }
    }
    rounds
}

fn run_counting(size: usize, tasks: usize) -> usize {
    let counter = Rc::new(Cell::new(0));
    let mut pool: ThreadPool<Job> = ThreadPool::new(size).unwrap();
    for _ in 0..tasks {
        assert_eq!(pool.execute(counting_job(&counter)), Ok(()));
    }
    assert_eq!(pool.shutdown(), size);
    drive(&mut pool);
    assert!(pool.all_terminated());
    assert_eq!(pool.pending(), 0);
    counter.get()
}

#[test]
fn new_with_zero_workers_is_invalid_configuration() {
    let pool: Result<ThreadPool<Job>, PoolError> = ThreadPool::new(0);
    assert!(matches!(pool, Err(PoolError::InvalidConfiguration)));
}

#[test]
fn new_pool_has_every_worker_alive() {
    for size in 1..=16 {
        let pool: ThreadPool<u32> = ThreadPool::new(size).unwrap();
        assert_eq!(pool.size(), size);
        assert_eq!(pool.alive_workers(), size);
        assert!(!pool.is_closed());
        assert!(!pool.all_terminated());
        assert_eq!(pool.pending(), 0);
        for id in 0..size {
            assert_eq!(pool.worker_state(id), Some(WorkerState::Running));
            assert!(!pool.is_busy(id));
        }
        assert_eq!(pool.worker_state(size), None);
    }
}

#[test]
fn four_workers_run_a_hundred_tasks_once_each() {
    let counter = Rc::new(Cell::new(0));
    let mut pool: ThreadPool<Job> = ThreadPool::new(4).unwrap();
    for _ in 0..100 {
        assert_eq!(pool.execute(counting_job(&counter)), Ok(()));
    }
    assert_eq!(pool.pending(), 100);
    assert_eq!(pool.shutdown(), 4);
    assert_eq!(pool.pending(), 104);
    let rounds = drive(&mut pool);
    assert_eq!(counter.get(), 100);
    assert!(pool.all_terminated());
    assert_eq!(pool.alive_workers(), 0);
    // 25 tasks and one stop signal for each of the four workers.
    assert_eq!(rounds, 26);
}

#[test]
fn every_counting_task_runs_once_for_any_size() {
    for size in [1, 2, 3, 8, 13] {
        for tasks in [0, 1, 2, 7, 50] {
            assert_eq!(run_counting(size, tasks), tasks);
        }
    }
}

#[test]
fn one_worker_and_eight_workers_do_the_same_work() {
    for tasks in [0, 1, 9, 64] {
        assert_eq!(run_counting(1, tasks), tasks);
        assert_eq!(run_counting(8, tasks), tasks);
        assert_eq!(run_counting(1, tasks), run_counting(8, tasks));
    }
}

#[test]
fn tasks_that_run_while_others_are_submitted_are_counted_too() {
    let counter = Rc::new(Cell::new(0));
    let mut pool: ThreadPool<Job> = ThreadPool::new(3).unwrap();
    for round in 0..10 {
        assert_eq!(pool.execute(counting_job(&counter)), Ok(()));
        assert_eq!(pool.execute(counting_job(&counter)), Ok(()));
        let id = round % 3;
        let _ = pool.finish(id, TaskOutcome::Completed);
        if let Some(ControlMessage::Run(job)) = pool.receive(id) {
            job();
        }
    }
    assert_eq!(pool.shutdown(), 3);
    // Workers that still hold a task report it before they ask again.
    for id in 0..3 {
        assert_eq!(pool.finish(id, TaskOutcome::Completed), Ok(()));
    }
    drive(&mut pool);
    assert_eq!(counter.get(), 20);
}

#[test]
fn tasks_are_handed_out_in_the_order_of_submission() {
    let mut pool: ThreadPool<u32> = ThreadPool::new(2).unwrap();
    for task in [10, 20, 30, 40] {
        assert_eq!(pool.execute(task), Ok(()));
    }
    assert!(matches!(pool.receive(1), Some(ControlMessage::Run(10))));
    assert!(matches!(pool.receive(0), Some(ControlMessage::Run(20))));
    // Both workers are busy: neither is handed anything more.
    assert!(pool.receive(0).is_none());
    assert!(pool.receive(1).is_none());
    assert_eq!(pool.pending(), 2);
    assert_eq!(pool.finish(0, TaskOutcome::Completed), Ok(()));
    assert!(matches!(pool.receive(0), Some(ControlMessage::Run(30))));
    assert_eq!(pool.finish(1, TaskOutcome::Completed), Ok(()));
    assert!(matches!(pool.receive(1), Some(ControlMessage::Run(40))));
    assert!(pool.is_busy(0) && pool.is_busy(1));
}

#[test]
fn idle_shutdown_ends_every_worker_at_once() {
    for size in 1..=9 {
        let mut pool: ThreadPool<Job> = ThreadPool::new(size).unwrap();
        assert_eq!(pool.shutdown(), size);
        assert_eq!(pool.pending(), size);
        assert!(pool.is_closed());
        for id in (0..size).rev() {
            assert!(matches!(pool.receive(id), Some(ControlMessage::Stop)));
            assert_eq!(pool.worker_state(id), Some(WorkerState::Terminated));
            assert_eq!(pool.alive_workers(), id);
        }
        assert!(pool.all_terminated());
        assert_eq!(pool.pending(), 0);
    }
}

#[test]
fn a_stopped_worker_receives_nothing_more() {
    let mut pool: ThreadPool<u32> = ThreadPool::new(2).unwrap();
    assert_eq!(pool.shutdown(), 2);
    assert!(matches!(pool.receive(0), Some(ControlMessage::Stop)));
    assert!(pool.receive(0).is_none());
    assert_eq!(pool.pending(), 1);
    assert!(matches!(pool.receive(1), Some(ControlMessage::Stop)));
    assert!(pool.all_terminated());
}

#[test]
fn a_fault_kills_only_the_worker_that_ran_the_task() {
    let counter = Rc::new(Cell::new(0));
    let mut pool: ThreadPool<Job> = ThreadPool::new(2).unwrap();
    let faulting: Job = Box::new(|| {});
    assert_eq!(pool.execute(faulting), Ok(()));
    assert_eq!(pool.execute(counting_job(&counter)), Ok(()));
    let first = pool.receive(0);
    let second = pool.receive(1);
    assert!(matches!(first, Some(ControlMessage::Run(_))));
    // The first task faults before the second has finished.
    assert_eq!(pool.finish(0, TaskOutcome::Faulted), Err(PoolError::WorkerFault));
    assert_eq!(pool.alive_workers(), 1);
    assert_eq!(pool.worker_state(0), Some(WorkerState::Terminated));
    assert_eq!(pool.worker_state(1), Some(WorkerState::Running));
    assert!(pool.is_busy(1));
    match second {
        Some(ControlMessage::Run(job)) => job(),
        _ => panic!("the second worker was handed no task"),
    }
    assert_eq!(pool.finish(1, TaskOutcome::Completed), Ok(()));
    assert_eq!(counter.get(), 1);
    // The dead worker is never handed anything again.
    assert_eq!(pool.execute(counting_job(&counter)), Ok(()));
    assert!(pool.receive(0).is_none());
    // Shutdown sends one stop signal, for the one worker left.
    assert_eq!(pool.shutdown(), 1);
    drive(&mut pool);
    assert_eq!(counter.get(), 2);
    assert!(pool.all_terminated());
}

#[test]
fn submitting_after_shutdown_is_refused() {
    let counter = Rc::new(Cell::new(0));
    let mut pool: ThreadPool<Job> = ThreadPool::new(3).unwrap();
    assert_eq!(pool.execute(counting_job(&counter)), Ok(()));
    assert_eq!(pool.shutdown(), 3);
    assert_eq!(pool.execute(counting_job(&counter)), Err(PoolError::QueueClosed));
    assert_eq!(pool.pending(), 4);
    drive(&mut pool);
    assert!(pool.all_terminated());
    assert_eq!(pool.execute(counting_job(&counter)), Err(PoolError::QueueClosed));
    assert_eq!(pool.pending(), 0);
    assert_eq!(counter.get(), 1);
}

#[test]
fn a_second_shutdown_sends_nothing() {
    let mut pool: ThreadPool<u32> = ThreadPool::new(5).unwrap();
    assert_eq!(pool.shutdown(), 5);
    assert_eq!(pool.shutdown(), 0);
    assert_eq!(pool.pending(), 5);
    assert!(matches!(pool.receive(2), Some(ControlMessage::Stop)));
    assert_eq!(pool.shutdown(), 0);
    assert_eq!(pool.pending(), 4);
}

#[test]
fn an_idle_worker_waits_on_an_empty_queue() {
    let mut pool: ThreadPool<u32> = ThreadPool::new(2).unwrap();
    assert!(pool.receive(0).is_none());
    assert!(pool.receive(1).is_none());
    assert_eq!(pool.alive_workers(), 2);
    assert_eq!(pool.execute(7), Ok(()));
    assert!(matches!(pool.receive(1), Some(ControlMessage::Run(7))));
}

#[test]
fn calls_that_name_no_worker_change_nothing() {
    let mut pool: ThreadPool<u32> = ThreadPool::new(2).unwrap();
    assert_eq!(pool.execute(1), Ok(()));
    assert!(pool.receive(2).is_none());
    assert!(pool.receive(usize::MAX).is_none());
    assert_eq!(pool.finish(2, TaskOutcome::Faulted), Ok(()));
    assert_eq!(pool.finish(0, TaskOutcome::Faulted), Ok(()));
    assert_eq!(pool.finish(0, TaskOutcome::Completed), Ok(()));
    assert_eq!(pool.spawn_failed(2), Ok(()));
    assert!(!pool.is_busy(2));
    assert_eq!(pool.pending(), 1);
    assert_eq!(pool.alive_workers(), 2);
}

#[test]
fn a_failed_spawn_gives_up_the_worker() {
    let mut pool: ThreadPool<u32> = ThreadPool::new(3).unwrap();
    assert_eq!(pool.spawn_failed(2), Err(PoolError::SpawnFailure));
    assert_eq!(pool.alive_workers(), 2);
    assert_eq!(pool.worker_state(2), Some(WorkerState::Terminated));
    // Given up once, not twice.
    assert_eq!(pool.spawn_failed(2), Ok(()));
    assert_eq!(pool.alive_workers(), 2);
    // The workers that did start are ended by a shutdown.
    assert_eq!(pool.shutdown(), 2);
    assert!(matches!(pool.receive(0), Some(ControlMessage::Stop)));
    assert!(matches!(pool.receive(1), Some(ControlMessage::Stop)));
    assert!(pool.all_terminated());
}

#[test]
fn a_busy_worker_is_not_given_up() {
    let mut pool: ThreadPool<u32> = ThreadPool::new(1).unwrap();
    assert_eq!(pool.execute(3), Ok(()));
    assert!(matches!(pool.receive(0), Some(ControlMessage::Run(3))));
    assert_eq!(pool.spawn_failed(0), Ok(()));
    assert_eq!(pool.alive_workers(), 1);
}

#[test]
fn pool_error_messages() {
    assert_eq!(PoolError::InvalidConfiguration.message(), "pool size must be greater than zero");
    assert_eq!(PoolError::QueueClosed.message(), "the dispatch queue is closed");
    assert_eq!(PoolError::WorkerFault.message(), "a task faulted and took its worker with it");
    assert_eq!(PoolError::SpawnFailure.message(), "a worker thread could not be created");
}
