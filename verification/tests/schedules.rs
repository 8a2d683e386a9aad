use std::cell::RefCell;
use std::rc::Rc;

use server::{ControlMessage, PoolError, TaskOutcome, ThreadPool};

/// A small generator of repeatable pseudo-random numbers, to pick schedules.
struct Dice(u64);

impl Dice {
    fn roll(&mut self, sides: usize) -> usize {
        self.0 = self.0.wrapping_mul(6364136223846793005).wrapping_add(1442695040888963407);
        ((self.0 >> 33) as usize) % sides
    }
}

/// Runs `tasks` numbered tasks on `size` workers under the schedule that
/// `seed` picks: at each step one worker, chosen by the dice, either reports
/// its task as completed or asks for its next message, while the submitter
/// puts in its tasks now and then and shuts the pool down after the last.
/// Returns the numbers of the tasks in the order in which they completed.
fn run_schedule(size: usize, tasks: usize, seed: u64) -> Vec<usize> {
    let mut dice = Dice(seed);
    let log: Rc<RefCell<Vec<usize>>> = Rc::new(RefCell::new(Vec::new()));
    let mut pool: ThreadPool<usize> = ThreadPool::new(size).unwrap();
    let mut submitted = 0;
    let mut shut = false;
    let mut in_hand: Vec<Option<usize>> = vec![None; size];
    let mut steps = 0;
    while !pool.all_terminated() {
        steps += 1;
        assert!(steps < 1_000_000, "the pool does not come to rest");
        if !shut && dice.roll(3) == 0 {
            if submitted < tasks {
                assert_eq!(pool.execute(submitted), Ok(()));
                submitted += 1;
            } else {
                pool.shutdown();
                shut = true;
            }
            continue;
        }
        let id = dice.roll(size);
        match in_hand[id].take() {
            Some(task) => {
                log.borrow_mut().push(task);
                assert_eq!(pool.finish(id, TaskOutcome::Completed), Ok(()));
            }
            None => match pool.receive(id) {
                Some(ControlMessage::Run(task)) => in_hand[id] = Some(task),
                Some(ControlMessage::Stop) => {}
                None => {}
            },
        }
    }
    assert!(shut);
    assert_eq!(pool.pending(), 0);
    assert_eq!(pool.execute(tasks), Err(PoolError::QueueClosed));
    let done = log.borrow().clone();
    done
}

#[test]
fn every_schedule_completes_every_task_once() {
    for seed in 0..40 {
        for size in [1, 2, 5, 8] {
            for tasks in [0, 1, 6, 31] {
                let mut done = run_schedule(size, tasks, seed);
                assert_eq!(done.len(), tasks);
                done.sort();
                let expected: Vec<usize> = (0..tasks).collect();
                assert_eq!(done, expected);
            }
        }
    }
}

#[test]
fn one_worker_completes_tasks_in_the_order_of_submission() {
    for seed in 0..20 {
        let done = run_schedule(1, 25, seed);
        let expected: Vec<usize> = (0..25).collect();
        assert_eq!(done, expected);
    }
}

#[test]
fn faults_cost_workers_but_no_other_task() {
    // Three workers, nine tasks; every third task faults.
    let mut pool: ThreadPool<usize> = ThreadPool::new(3).unwrap();
    for task in 0..9 {
        assert_eq!(pool.execute(task), Ok(()));
    }
    let mut completed = Vec::new();
    let mut faulted = Vec::new();
    let mut progress = true;
    while progress {
        progress = false;
        for id in 0..3 {
            if let Some(ControlMessage::Run(task)) = pool.receive(id) {
                progress = true;
                if task % 3 == 2 {
                    faulted.push(task);
                    assert_eq!(
                        pool.finish(id, TaskOutcome::Faulted),
                        Err(PoolError::WorkerFault)
                    );
                } else {
                    completed.push(task);
                    assert_eq!(pool.finish(id, TaskOutcome::Completed), Ok(()));
                }
            }
        }
    }
    // Tasks 2, 5 and 8 each took a worker with them; the last of them left none.
    assert_eq!(faulted, vec![2, 5, 8]);
    assert_eq!(completed, vec![0, 1, 3, 4, 6, 7]);
    assert_eq!(pool.alive_workers(), 0);
    assert!(pool.all_terminated());
    assert_eq!(pool.pending(), 0);
    assert_eq!(pool.shutdown(), 0);
}
