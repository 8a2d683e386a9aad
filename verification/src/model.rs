//! The pool as a mathematical state machine.
//!
//! A [`PoolModel`] is what a pool is at one moment: its workers, the messages
//! waiting in its queue, and a record of what has happened to every task so
//! far. The functions on it say what each step of the protocol does. The
//! executable pool is specified by them, and the laws about the pool are
//! proved of them.

use vstd::multiset::Multiset;
use vstd::prelude::*;

use crate::message::ControlMessage;
use crate::worker::WorkerState;

verus! {

/// A worker as the model sees it.
pub struct WorkerModel<T> {
    /// The worker's identifier: its position among the pool's workers.
    pub id: nat,
    /// Running or terminated.
    pub state: WorkerState,
    /// The task in the worker's hands, if it has one.
    pub task: Option<T>,
}

impl<T> WorkerModel<T> {
    /// Whether the worker is running.
    pub open spec fn is_alive(self) -> bool {
        self.state is Running
    }

    /// Running, with no task in hand.
    pub open spec fn is_idle(self) -> bool {
        self.state is Running && self.task is None
    }

    /// Running, with a task in hand.
    pub open spec fn is_busy(self) -> bool {
        self.state is Running && self.task is Some
    }

    /// The tasks in the worker's hands: one or none.
    pub open spec fn held(self) -> Multiset<T> {
        match self.task {
            Some(t) => Multiset::singleton(t),
            None => Multiset::empty(),
        }
    }
}

/// How many of `workers` are running.
pub open spec fn alive_count<T>(workers: Seq<WorkerModel<T>>) -> nat
    decreases workers.len(),
{
    if workers.len() == 0 {
        0
    } else {
        alive_count(workers.drop_last()) + if workers.last().is_alive() {
            1nat
        } else {
            0nat
        }
    }
}

/// The tasks in the hands of `workers`, as a multiset.
pub open spec fn in_flight<T>(workers: Seq<WorkerModel<T>>) -> Multiset<T>
    decreases workers.len(),
{
    if workers.len() == 0 {
        Multiset::empty()
    } else {
        in_flight(workers.drop_last()).add(workers.last().held())
    }
}

/// Replacing one worker changes the number of running workers by what that
/// worker contributes.
pub proof fn lemma_alive_count_update<T>(workers: Seq<WorkerModel<T>>, i: int, w: WorkerModel<T>)
    requires
        0 <= i < workers.len(),
    ensures
        alive_count(workers.update(i, w)) + (if workers[i].is_alive() { 1nat } else { 0nat })
            == alive_count(workers) + (if w.is_alive() { 1nat } else { 0nat }),
    decreases workers.len(),
{
    let updated = workers.update(i, w);
    if i == workers.len() - 1 {
        assert(updated.drop_last() =~= workers.drop_last());
    } else {
        lemma_alive_count_update(workers.drop_last(), i, w);
        assert(updated.drop_last() =~= workers.drop_last().update(i, w));
    }
}

/// Replacing one worker changes the tasks in flight by what that worker holds.
pub proof fn lemma_in_flight_update<T>(workers: Seq<WorkerModel<T>>, i: int, w: WorkerModel<T>)
    requires
        0 <= i < workers.len(),
    ensures
        in_flight(workers.update(i, w)).add(workers[i].held()) == in_flight(workers).add(w.held()),
    decreases workers.len(),
{
    let updated = workers.update(i, w);
    if i == workers.len() - 1 {
        assert(updated.drop_last() =~= workers.drop_last());
        assert(in_flight(updated).add(workers[i].held()) =~= in_flight(workers).add(w.held()));
    } else {
        lemma_in_flight_update(workers.drop_last(), i, w);
        assert(updated.drop_last() =~= workers.drop_last().update(i, w));
        assert(in_flight(updated).add(workers[i].held()) =~= in_flight(
            workers.drop_last().update(i, w),
        ).add(workers[i].held()).add(workers.last().held()));
        assert(in_flight(workers).add(w.held()) =~= in_flight(workers.drop_last()).add(
            w.held(),
        ).add(workers.last().held()));
    }
}

/// There are no more running workers than workers, and none is running
/// exactly when all have terminated.
pub proof fn lemma_alive_count_bounds<T>(workers: Seq<WorkerModel<T>>)
    ensures
        alive_count(workers) <= workers.len(),
        alive_count(workers) == 0 <==> forall|i: int|
            0 <= i < workers.len() ==> !(#[trigger] workers[i]).is_alive(),
        alive_count(workers) == workers.len() <==> forall|i: int|
            0 <= i < workers.len() ==> (#[trigger] workers[i]).is_alive(),
    decreases workers.len(),
{
    if workers.len() > 0 {
        let rest = workers.drop_last();
        lemma_alive_count_bounds(rest);
        assert forall|i: int| 0 <= i < rest.len() implies rest[i] == workers[i] by {}
        if alive_count(workers) == 0 {
            assert forall|i: int| 0 <= i < workers.len() implies !(#[trigger] workers[i]).is_alive() by {
                if i < rest.len() {
                    assert(rest[i] == workers[i]);
                }
            }
        }
        if alive_count(workers) == workers.len() {
            assert forall|i: int| 0 <= i < workers.len() implies (#[trigger] workers[i]).is_alive() by {
                if i < rest.len() {
                    assert(rest[i] == workers[i]);
                }
            }
        }
        if forall|i: int| 0 <= i < workers.len() ==> !(#[trigger] workers[i]).is_alive() {
            assert(!workers[workers.len() - 1].is_alive());
            assert forall|i: int| 0 <= i < rest.len() implies !(#[trigger] rest[i]).is_alive() by {
                assert(rest[i] == workers[i]);
            }
        }
        if forall|i: int| 0 <= i < workers.len() ==> (#[trigger] workers[i]).is_alive() {
            assert(workers[workers.len() - 1].is_alive());
            assert forall|i: int| 0 <= i < rest.len() implies (#[trigger] rest[i]).is_alive() by {
                assert(rest[i] == workers[i]);
            }
        }
    }
}

/// Workers that hold nothing have nothing in flight.
pub proof fn lemma_in_flight_none<T>(workers: Seq<WorkerModel<T>>)
    requires
        forall|i: int| 0 <= i < workers.len() ==> (#[trigger] workers[i]).task is None,
    ensures
        in_flight(workers) == Multiset::<T>::empty(),
    decreases workers.len(),
{
    if workers.len() > 0 {
        let rest = workers.drop_last();
        assert forall|i: int| 0 <= i < rest.len() implies (#[trigger] rest[i]).task is None by {
            assert(rest[i] == workers[i]);
        }
        lemma_in_flight_none(rest);
        assert(workers[workers.len() - 1].task is None);
        assert(in_flight(workers) =~= Multiset::<T>::empty());
    }
}

/// A pool at one moment.
///
/// Besides what the pool holds, the model keeps the history that the laws
/// speak of: which tasks were accepted, how many of them have left the queue,
/// and which of them have run to completion or faulted.
pub struct PoolModel<T> {
    /// The worker slots, in the order of their identifiers.
    pub workers: Seq<WorkerModel<T>>,
    /// The messages waiting in the dispatch queue, oldest first.
    pub queue: Seq<ControlMessage<T>>,
    /// Whether shutdown has begun.
    pub closed: bool,
    /// Every task accepted so far, in the order of submission.
    pub submitted: Seq<T>,
    /// How many of the accepted tasks have been handed to a worker.
    pub dispatched: nat,
    /// The tasks that ran to completion, in the order in which they finished.
    pub completed: Seq<T>,
    /// The tasks that faulted, in the order in which they did.
    pub faulted: Seq<T>,
    /// How many stop signals have been received.
    pub stopped: nat,
    /// How many workers were given up because no thread could be created.
    pub unstarted: nat,
}

/// One step of the protocol, as seen from outside the pool.
pub enum Event<T> {
    /// A caller submits a task.
    Submit(T),
    /// The owner shuts the pool down.
    Shutdown,
    /// The worker with this identifier asks for the next message.
    Receive(int),
    /// The worker with this identifier reports that its task ran to completion.
    Complete(int),
    /// The worker with this identifier reports that its task faulted.
    Fault(int),
    /// No thread could be created for the worker with this identifier.
    SpawnFailed(int),
}

impl<T> PoolModel<T> {
    /// A new pool of `size` workers: all running and idle, nothing queued,
    /// nothing recorded.
    pub open spec fn init(size: nat) -> Self {
        PoolModel {
            workers: Seq::new(
                size,
                |i: int| WorkerModel { id: i as nat, state: WorkerState::Running, task: None },
            ),
            queue: Seq::empty(),
            closed: false,
            submitted: Seq::empty(),
            dispatched: 0,
            completed: Seq::empty(),
            faulted: Seq::empty(),
            stopped: 0,
            unstarted: 0,
        }
    }

    /// The number of worker slots. It never changes.
    pub open spec fn size(self) -> nat {
        self.workers.len()
    }

    /// The number of running workers.
    pub open spec fn alive(self) -> nat {
        alive_count(self.workers)
    }

    /// Whether every worker has terminated: what a join of all workers waits for.
    pub open spec fn all_terminated(self) -> bool {
        forall|i: int| 0 <= i < self.workers.len() ==> !(#[trigger] self.workers[i]).is_alive()
    }

    /// The number of accepted tasks still waiting in the queue.
    pub open spec fn pending_runs(self) -> int {
        self.submitted.len() - self.dispatched
    }

    /// The number of stop signals still waiting in the queue.
    pub open spec fn pending_stops(self) -> int {
        self.queue.len() - self.pending_runs()
    }

    /// Submission: an open pool puts `Run(task)` at the back of the queue and
    /// records the task; a pool that is shutting down refuses it.
    pub open spec fn submit(self, task: T) -> Self {
        if self.closed {
            self
        } else {
            PoolModel {
                queue: self.queue.push(ControlMessage::Run(task)),
                submitted: self.submitted.push(task),
                ..self
            }
        }
    }

    /// Shutdown: one stop signal for each running worker goes to the back of
    /// the queue, and the pool accepts no more tasks. A second shutdown
    /// changes nothing.
    pub open spec fn shutdown(self) -> Self {
        if self.closed {
            self
        } else {
            PoolModel {
                queue: self.queue + Seq::new(self.alive(), |i: int| ControlMessage::<T>::Stop),
                closed: true,
                ..self
            }
        }
    }

    /// Whether the worker `id` receives a message when it asks for one: it is
    /// a worker of this pool, it is idle, and a message is waiting.
    pub open spec fn can_receive(self, id: int) -> bool {
        &&& 0 <= id < self.workers.len()
        &&& self.workers[id].is_idle()
        &&& self.queue.len() > 0
    }

    /// What the worker `id` is handed when it asks for the next message: the
    /// oldest message in the queue, if the worker can receive.
    pub open spec fn delivery(self, id: int) -> Option<ControlMessage<T>> {
        if self.can_receive(id) {
            Some(self.queue[0])
        } else {
            None
        }
    }

    /// Receipt: the oldest message leaves the queue for the worker `id`. A
    /// task goes into the worker's hands; a stop signal terminates the
    /// worker. Nothing changes if the worker cannot receive.
    pub open spec fn receive(self, id: int) -> Self {
        if !self.can_receive(id) {
            self
        } else {
            match self.queue[0] {
                ControlMessage::Run(task) => PoolModel {
                    workers: self.workers.update(
                        id,
                        WorkerModel { task: Some(task), ..self.workers[id] },
                    ),
                    queue: self.queue.skip(1),
                    dispatched: self.dispatched + 1,
                    ..self
                },
                ControlMessage::Stop => PoolModel {
                    workers: self.workers.update(
                        id,
                        WorkerModel { state: WorkerState::Terminated, ..self.workers[id] },
                    ),
                    queue: self.queue.skip(1),
                    stopped: self.stopped + 1,
                    ..self
                },
            }
        }
    }

    /// Whether the worker `id` is a worker of this pool with a task in hand.
    pub open spec fn is_busy(self, id: int) -> bool {
        0 <= id < self.workers.len() && self.workers[id].is_busy()
    }

    /// Completion: the task in the hands of worker `id` has run to its end.
    /// It is recorded as completed and the worker is idle again. Nothing
    /// changes if the worker holds no task.
    pub open spec fn complete(self, id: int) -> Self {
        if !self.is_busy(id) {
            self
        } else {
            PoolModel {
                workers: self.workers.update(id, WorkerModel { task: None, ..self.workers[id] }),
                completed: self.completed.push(self.workers[id].task->0),
                ..self
            }
        }
    }

    /// Fault: the task in the hands of worker `id` raised a fault. It is
    /// recorded as faulted and the worker is dead; no other worker and no
    /// message is touched. Nothing changes if the worker holds no task.
    pub open spec fn fault(self, id: int) -> Self {
        if !self.is_busy(id) {
            self
        } else {
            PoolModel {
                workers: self.workers.update(
                    id,
                    WorkerModel { state: WorkerState::Terminated, task: None, ..self.workers[id] },
                ),
                faulted: self.faulted.push(self.workers[id].task->0),
                ..self
            }
        }
    }

    /// Whether the worker `id` is an idle worker of this pool.
    pub open spec fn is_idle(self, id: int) -> bool {
        0 <= id < self.workers.len() && self.workers[id].is_idle()
    }

    /// Failed spawn: no thread exists to drive the idle worker `id`, so the
    /// slot is dead. Nothing changes if the worker is not idle.
    pub open spec fn spawn_failed(self, id: int) -> Self {
        if !self.is_idle(id) {
            self
        } else {
            PoolModel {
                workers: self.workers.update(
                    id,
                    WorkerModel { state: WorkerState::Terminated, ..self.workers[id] },
                ),
                unstarted: self.unstarted + 1,
                ..self
            }
        }
    }

    /// The pool after one event.
    pub open spec fn step(self, event: Event<T>) -> Self {
        match event {
            Event::Submit(task) => self.submit(task),
            Event::Shutdown => self.shutdown(),
            Event::Receive(id) => self.receive(id),
            Event::Complete(id) => self.complete(id),
            Event::Fault(id) => self.fault(id),
            Event::SpawnFailed(id) => self.spawn_failed(id),
        }
    }

    /// The pool after a sequence of events, in order.
    pub open spec fn run(self, trace: Seq<Event<T>>) -> Self
        decreases trace.len(),
    {
        if trace.len() == 0 {
            self
        } else {
            self.run(trace.drop_last()).step(trace.last())
        }
    }

    /// Each worker sits at the position its identifier names, and a
    /// terminated worker holds no task.
    pub open spec fn workers_wf(self) -> bool {
        forall|i: int|
            0 <= i < self.workers.len() ==> {
                &&& (#[trigger] self.workers[i]).id == i
                &&& self.workers[i].state is Terminated ==> self.workers[i].task is None
            }
    }

    /// The queue holds the accepted tasks that have not been handed out, in
    /// the order of their submission, followed by stop signals only.
    pub open spec fn queue_wf(self) -> bool {
        &&& self.dispatched <= self.submitted.len()
        &&& self.pending_runs() <= self.queue.len()
        &&& forall|i: int|
            0 <= i < self.pending_runs() ==> #[trigger] self.queue[i] == ControlMessage::Run(
                self.submitted[self.dispatched + i],
            )
        &&& forall|i: int|
            self.pending_runs() <= i < self.queue.len() ==> #[trigger] self.queue[i] is Stop
    }

    /// Stop signals exist only once shutdown has begun; from then on there
    /// is at least one waiting for each running worker. A stop signal is
    /// received only after every task has left the queue. Every terminated
    /// worker received a stop signal, died of a fault, or was never started.
    pub open spec fn stops_wf(self) -> bool {
        &&& !self.closed ==> self.pending_stops() == 0 && self.stopped == 0
        &&& self.closed ==> self.pending_stops() >= self.alive()
        &&& self.stopped > 0 ==> self.pending_runs() == 0
        &&& self.workers.len() == self.alive() + self.stopped + self.faulted.len() + self.unstarted
    }

    /// Every task that has left the queue is in a worker's hands, or ran to
    /// completion, or faulted: once and only once.
    pub open spec fn ledger_wf(self) -> bool {
        self.submitted.take(self.dispatched as int).to_multiset() == self.completed.to_multiset().add(
            self.faulted.to_multiset(),
        ).add(in_flight(self.workers))
    }

    /// What holds of a pool at every moment of its life.
    pub open spec fn inv(self) -> bool {
        &&& self.workers_wf()
        &&& self.queue_wf()
        &&& self.stops_wf()
        &&& self.ledger_wf()
    }
}

} // verus!
