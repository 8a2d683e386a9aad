//! The pool: a fixed set of workers behind one dispatch queue.

use vstd::prelude::*;

use crate::error::PoolError;
use crate::message::ControlMessage;
use crate::model::{alive_count, lemma_alive_count_bounds, PoolModel, WorkerModel};
use crate::queue::DispatchQueue;
use crate::safety::{
    lemma_complete_inv, lemma_fault_inv, lemma_init_inv, lemma_receive_inv, lemma_shutdown_inv,
    lemma_spawn_failed_inv, lemma_submit_inv,
};
use crate::worker::{TaskOutcome, Worker, WorkerState};

verus! {

/// The history that the pool keeps for its contracts: it exists only in
/// proofs and costs nothing when the pool runs.
struct Ledger<T> {
    submitted: Seq<T>,
    dispatched: nat,
    running: Map<int, T>,
    completed: Seq<T>,
    faulted: Seq<T>,
    stopped: nat,
    unstarted: nat,
}

/// A pool of a fixed number of workers.
///
/// The pool owns the worker slots and the dispatch queue. Callers submit
/// tasks with [`execute`](ThreadPool::execute); each worker's thread asks
/// for its next message with [`receive`](ThreadPool::receive), runs the task
/// it is handed, and reports the outcome with
/// [`finish`](ThreadPool::finish); the owner ends the pool with
/// [`shutdown`](ThreadPool::shutdown). The pool itself never blocks and never
/// runs a task: it decides, and the threads around it act.
pub struct ThreadPool<T> {
    workers: Vec<Worker>,
    queue: DispatchQueue<T>,
    ledger: Ghost<Ledger<T>>,
}

impl<T> View for ThreadPool<T> {
    type V = PoolModel<T>;

    closed spec fn view(&self) -> PoolModel<T> {
        PoolModel {
            workers: Seq::new(
                self.workers@.len(),
                |i: int|
                    WorkerModel {
                        id: self.workers@[i].id() as nat,
                        state: self.workers@[i].state(),
                        task: if self.workers@[i].is_busy() {
                            Some(self.ledger@.running[i])
                        } else {
                            None
                        },
                    },
            ),
            queue: self.queue@,
            closed: self.queue.closed(),
            submitted: self.ledger@.submitted,
            dispatched: self.ledger@.dispatched,
            completed: self.ledger@.completed,
            faulted: self.ledger@.faulted,
            stopped: self.ledger@.stopped,
            unstarted: self.ledger@.unstarted,
        }
    }
}

/// Counting one more worker adds what that worker contributes.
proof fn lemma_alive_count_take<T>(workers: Seq<WorkerModel<T>>, i: int)
    requires
        0 <= i < workers.len(),
    ensures
        alive_count(workers.take(i + 1)) == alive_count(workers.take(i)) + (if workers[i].is_alive() {
            1nat
        } else {
            0nat
        }),
{
    assert(workers.take(i + 1).drop_last() =~= workers.take(i));
}

impl<T> ThreadPool<T> {
    /// Creates a pool of `size` workers, all running and idle, with an empty
    /// queue. A pool of no workers would never drain its queue, so a `size`
    /// of zero is refused with `InvalidConfiguration`.
    pub fn new(size: usize) -> (pool: Result<ThreadPool<T>, PoolError>)
        ensures
            size == 0 ==> (pool matches Err(e) && e == PoolError::InvalidConfiguration),
            size > 0 ==> (pool matches Ok(p) && p@ == PoolModel::<T>::init(size as nat)
                && p@.alive() == size && p@.inv()),
    {
        if size == 0 {
            return Err(PoolError::InvalidConfiguration);
        }
        let mut workers: Vec<Worker> = Vec::new();
        let mut id: usize = 0;
        while id < size
            invariant
                id <= size,
                workers@.len() == id,
                forall|i: int|
                    0 <= i < id ==> {
                        &&& (#[trigger] workers@[i]).id() == i
                        &&& workers@[i].state() is Running
                        &&& !workers@[i].is_busy()
                    },
            decreases size - id,
        {
            workers.push(Worker::new(id));
            id += 1;
        }
        let pool = ThreadPool {
            workers,
            queue: DispatchQueue::new(),
            ledger: Ghost(
                Ledger {
                    submitted: Seq::empty(),
                    dispatched: 0,
                    running: Map::empty(),
                    completed: Seq::empty(),
                    faulted: Seq::empty(),
                    stopped: 0,
                    unstarted: 0,
                },
            ),
        };
        proof {
            assert(pool@.workers =~= PoolModel::<T>::init(size as nat).workers);
            lemma_init_inv::<T>(size as nat);
        }
        Ok(pool)
    }

    /// Submits a task: `Run(task)` goes to the back of the queue, to be
    /// handed to whichever worker asks next. Once shutdown has begun the
    /// task is refused with `QueueClosed`, and will never run.
    pub fn execute(&mut self, task: T) -> (queued: Result<(), PoolError>)
        ensures
            final(self)@ == old(self)@.submit(task),
            queued == (if old(self)@.closed {
                Err::<(), PoolError>(PoolError::QueueClosed)
            } else {
                Ok::<(), PoolError>(())
            }),
            old(self)@.inv() ==> final(self)@.inv(),
    {
        let queued = self.queue.send(ControlMessage::Run(task));
        if queued.is_ok() {
            proof {
                let ghost ledger = Ledger {
                    submitted: self.ledger@.submitted.push(task),
                    ..self.ledger@
                };
                self.ledger = Ghost(ledger);
            }
        }
        proof {
            assert(self@.workers =~= old(self)@.submit(task).workers);
            if old(self)@.inv() {
                lemma_submit_inv(old(self)@, task);
            }
        }
        queued
    }

    /// Begins shutdown: sends one stop signal for each running worker and
    /// closes the queue to new tasks. Tasks already queued stay ahead of the
    /// stop signals, so they are handed out first. Returns the number of stop
    /// signals sent. On a pool that is already shutting down this does
    /// nothing and returns zero.
    ///
    /// Shutdown is over when every worker has terminated; see
    /// [`all_terminated`](ThreadPool::all_terminated).
    pub fn shutdown(&mut self) -> (sent: usize)
        ensures
            final(self)@ == old(self)@.shutdown(),
            sent == (if old(self)@.closed {
                0
            } else {
                old(self)@.alive()
            }),
            old(self)@.inv() ==> final(self)@.inv(),
    {
        if self.queue.is_closed() {
            return 0;
        }
        let count = self.alive_workers();
        let mut sent: usize = 0;
        while sent < count
            invariant
                sent <= count,
                !self.queue.closed(),
                self.workers == old(self).workers,
                self.ledger == old(self).ledger,
                self.queue@ == old(self).queue@ + Seq::new(
                    sent as nat,
                    |i: int| ControlMessage::<T>::Stop,
                ),
            decreases count - sent,
        {
            let _ = self.queue.send(ControlMessage::Stop);
            sent += 1;
        }
        self.queue.close();
        proof {
            assert(self@.workers =~= old(self)@.workers);
            if old(self)@.inv() {
                lemma_shutdown_inv(old(self)@);
            }
        }
        sent
    }

    /// Hands the worker `id` its next message, if it is to get one: the
    /// oldest message leaves the queue, a task goes into the worker's hands
    /// and a stop signal terminates the worker. The worker's thread runs the
    /// task it is handed, or ends on a stop signal.
    ///
    /// Returns `None`, and changes nothing, when the queue is empty (the
    /// worker waits), when the worker is not idle, or when `id` names no
    /// worker of this pool.
    pub fn receive(&mut self, id: usize) -> (message: Option<ControlMessage<T>>)
        ensures
            final(self)@ == old(self)@.receive(id as int),
            message == old(self)@.delivery(id as int),
            old(self)@.inv() ==> final(self)@.inv(),
    {
        if id >= self.workers.len() {
            return None;
        }
        let mut worker = self.workers[id];
        if !worker.is_idle() {
            return None;
        }
        match self.queue.receive() {
            None => None,
            Some(message) => {
                worker.accept(&message);
                self.workers.set(id, worker);
                proof {
                    let ghost ledger = if message is Run {
                        Ledger {
                            running: self.ledger@.running.insert(id as int, message->Run_0),
                            dispatched: self.ledger@.dispatched + 1,
                            ..self.ledger@
                        }
                    } else {
                        Ledger { stopped: self.ledger@.stopped + 1, ..self.ledger@ }
                    };
                    self.ledger = Ghost(ledger);
                    assert(self@.workers =~= old(self)@.receive(id as int).workers);
                    if old(self)@.inv() {
                        lemma_receive_inv(old(self)@, id as int);
                    }
                }
                Some(message)
            },
        }
    }

    /// Records how the task in the hands of worker `id` ended.
    ///
    /// A completed task is recorded and the worker is idle again. A faulted
    /// task is recorded and kills the worker that ran it, and no other: the
    /// result `WorkerFault` tells the worker's thread to end. The fault is
    /// not reported to whoever submitted the task, and the task is not run
    /// again.
    ///
    /// Returns `Ok`, and changes nothing, when the worker holds no task or
    /// `id` names no worker of this pool.
    pub fn finish(&mut self, id: usize, outcome: TaskOutcome) -> (next: Result<(), PoolError>)
        ensures
            final(self)@ == (match outcome {
                TaskOutcome::Completed => old(self)@.complete(id as int),
                TaskOutcome::Faulted => old(self)@.fault(id as int),
            }),
            next == (if outcome is Faulted && old(self)@.is_busy(id as int) {
                Err::<(), PoolError>(PoolError::WorkerFault)
            } else {
                Ok::<(), PoolError>(())
            }),
            old(self)@.inv() ==> final(self)@.inv(),
    {
        if id >= self.workers.len() {
            return Ok(());
        }
        let mut worker = self.workers[id];
        if !worker.is_busy() {
            return Ok(());
        }
        let next = worker.finish(outcome);
        self.workers.set(id, worker);
        proof {
            let ghost task = self.ledger@.running[id as int];
            let ghost ledger = match outcome {
                TaskOutcome::Completed => Ledger {
                    completed: self.ledger@.completed.push(task),
                    ..self.ledger@
                },
                TaskOutcome::Faulted => Ledger {
                    faulted: self.ledger@.faulted.push(task),
                    ..self.ledger@
                },
            };
            self.ledger = Ghost(ledger);
            match outcome {
                TaskOutcome::Completed => {
                    assert(self@.workers =~= old(self)@.complete(id as int).workers);
                    if old(self)@.inv() {
                        lemma_complete_inv(old(self)@, id as int);
                    }
                },
                TaskOutcome::Faulted => {
                    assert(self@.workers =~= old(self)@.fault(id as int).workers);
                    if old(self)@.inv() {
                        lemma_fault_inv(old(self)@, id as int);
                    }
                },
            }
        }
        next
    }

    /// Records that no thread could be created for the worker `id`.
    ///
    /// An idle worker is given up: its slot is dead from now on, and the
    /// result `SpawnFailure` is for the caller that asked for the pool. The
    /// workers that did start are not touched; a `shutdown` ends them.
    ///
    /// Returns `Ok`, and changes nothing, when the worker is not idle or `id`
    /// names no worker of this pool.
    pub fn spawn_failed(&mut self, id: usize) -> (given_up: Result<(), PoolError>)
        ensures
            final(self)@ == old(self)@.spawn_failed(id as int),
            given_up == (if old(self)@.is_idle(id as int) {
                Err::<(), PoolError>(PoolError::SpawnFailure)
            } else {
                Ok::<(), PoolError>(())
            }),
            old(self)@.inv() ==> final(self)@.inv(),
    {
        if id >= self.workers.len() {
            return Ok(());
        }
        let mut worker = self.workers[id];
        if !worker.abandon() {
            return Ok(());
        }
        self.workers.set(id, worker);
        proof {
            let ghost ledger = Ledger { unstarted: self.ledger@.unstarted + 1, ..self.ledger@ };
            self.ledger = Ghost(ledger);
            assert(self@.workers =~= old(self)@.spawn_failed(id as int).workers);
            if old(self)@.inv() {
                lemma_spawn_failed_inv(old(self)@, id as int);
            }
        }
        Err(PoolError::SpawnFailure)
    }

    /// The number of worker slots, fixed when the pool was made.
    pub fn size(&self) -> (size: usize)
        ensures
            size == self@.size(),
    {
        self.workers.len()
    }

    /// The number of workers that are running.
    pub fn alive_workers(&self) -> (alive: usize)
        ensures
            alive == self@.alive(),
    {
        let mut alive: usize = 0;
        let mut i: usize = 0;
        while i < self.workers.len()
            invariant
                i <= self.workers@.len(),
                alive <= i,
                alive == alive_count(self@.workers.take(i as int)),
            decreases self.workers@.len() - i,
        {
            proof {
                lemma_alive_count_take(self@.workers, i as int);
            }
            if self.workers[i].is_alive() {
                alive += 1;
            }
            i += 1;
        }
        proof {
            assert(self@.workers.take(i as int) =~= self@.workers);
        }
        alive
    }

    /// Whether every worker has terminated. After a shutdown, this is the
    /// moment at which joining the workers' threads returns.
    pub fn all_terminated(&self) -> (done: bool)
        ensures
            done == self@.all_terminated(),
    {
        let alive = self.alive_workers();
        proof {
            lemma_alive_count_bounds(self@.workers);
        }
        alive == 0
    }

    /// Whether shutdown has begun.
    pub fn is_closed(&self) -> (closed: bool)
        ensures
            closed == self@.closed,
    {
        self.queue.is_closed()
    }

    /// The number of messages waiting in the queue.
    pub fn pending(&self) -> (pending: usize)
        ensures
            pending == self@.queue.len(),
    {
        self.queue.len()
    }

    /// The state of the worker `id`, if `id` names a worker of this pool.
    pub fn worker_state(&self, id: usize) -> (state: Option<WorkerState>)
        ensures
            state == (if id < self@.size() {
                Some(self@.workers[id as int].state)
            } else {
                None
            }),
    {
        if id < self.workers.len() {
            Some(self.workers[id].state())
        } else {
            None
        }
    }

    /// Whether the worker `id` holds a task whose outcome is not yet known.
    pub fn is_busy(&self, id: usize) -> (busy: bool)
        ensures
            busy == self@.is_busy(id as int),
    {
        if id < self.workers.len() {
            self.workers[id].is_busy()
        } else {
            false
        }
    }
}

} // verus!
