//! What holds of the pool whatever the schedule: the laws, each proved of
//! the model that the executable pool is specified by.

use vstd::multiset::Multiset;
use vstd::prelude::*;

use crate::message::ControlMessage;
use crate::model::{
    lemma_alive_count_bounds, lemma_alive_count_update, lemma_in_flight_none, Event, PoolModel,
};
use crate::safety::{lemma_empty_seq_bag, lemma_init_inv, lemma_run_inv};

verus! {

/// Whether a shutdown occurs in `trace`.
pub open spec fn shut_down<T>(trace: Seq<Event<T>>) -> bool
    decreases trace.len(),
{
    if trace.len() == 0 {
        false
    } else {
        shut_down(trace.drop_last()) || trace.last() is Shutdown
    }
}

/// The tasks submitted in `trace` before its first shutdown, in order.
pub open spec fn accepted<T>(trace: Seq<Event<T>>) -> Seq<T>
    decreases trace.len(),
{
    if trace.len() == 0 {
        Seq::empty()
    } else {
        let before = accepted(trace.drop_last());
        match trace.last() {
            Event::Submit(task) => if shut_down(trace.drop_last()) {
                before
            } else {
                before.push(task)
            },
            _ => before,
        }
    }
}

/// Whether `trace` is free of faults and of failed spawns.
pub open spec fn fault_free<T>(trace: Seq<Event<T>>) -> bool {
    forall|i: int|
        0 <= i < trace.len() ==> !((#[trigger] trace[i]) is Fault) && !(trace[i] is SpawnFailed)
}

/// The work left in a pool: two steps for each waiting message (to receive
/// it, and to finish what it starts), one for each task in a worker's hands.
pub open spec fn remaining_work<T>(s: PoolModel<T>) -> int {
    2 * s.queue.len() + s.dispatched - s.completed.len() - s.faulted.len()
}

/// No step changes the number of worker slots or a worker's identifier.
pub proof fn law_workers_are_fixed<T>(s: PoolModel<T>, event: Event<T>)
    ensures
        s.step(event).size() == s.size(),
        forall|i: int| 0 <= i < s.size() ==> (#[trigger] s.step(event).workers[i]).id == s.workers[i].id,
{
}

/// A pool of `size` workers, after any sequence of events, still has `size`
/// worker slots; it is shutting down exactly if the sequence held a
/// shutdown; and the tasks it has accepted are those submitted before that.
pub proof fn lemma_run_history<T>(size: nat, trace: Seq<Event<T>>)
    ensures
        PoolModel::<T>::init(size).run(trace).size() == size,
        PoolModel::<T>::init(size).run(trace).closed == shut_down(trace),
        PoolModel::<T>::init(size).run(trace).submitted == accepted(trace),
        PoolModel::<T>::init(size).run(trace).inv(),
    decreases trace.len(),
{
    lemma_init_inv::<T>(size);
    lemma_run_inv(PoolModel::<T>::init(size), trace);
    if trace.len() > 0 {
        lemma_run_history::<T>(size, trace.drop_last());
    }
}

/// Without faults and failed spawns, no task is recorded as faulted and no
/// worker as given up.
pub proof fn lemma_fault_free_run<T>(size: nat, trace: Seq<Event<T>>)
    requires
        fault_free(trace),
    ensures
        PoolModel::<T>::init(size).run(trace).faulted.len() == 0,
        PoolModel::<T>::init(size).run(trace).unstarted == 0,
    decreases trace.len(),
{
    if trace.len() > 0 {
        let before = trace.drop_last();
        assert forall|i: int| 0 <= i < before.len() implies !((#[trigger] before[i]) is Fault) && !(
        before[i] is SpawnFailed) by {
            assert(before[i] == trace[i]);
        }
        lemma_fault_free_run::<T>(size, before);
        assert(!(trace[trace.len() - 1] is Fault));
    }
}

/// A new pool of `size` workers has exactly `size` running workers.
pub proof fn law_new_pool_is_fully_alive<T>(size: nat)
    ensures
        PoolModel::<T>::init(size).size() == size,
        PoolModel::<T>::init(size).alive() == size,
        forall|i: int| 0 <= i < size ==> (#[trigger] PoolModel::<T>::init(size).workers[i]).is_idle(),
{
    lemma_init_inv::<T>(size);
}

/// Once every worker has terminated and at least one of them did so on a
/// stop signal, every accepted task has been run exactly once: the tasks
/// that completed and the tasks that faulted are, together, the tasks that
/// were accepted, each as often as it was submitted. The queue holds no task.
pub proof fn law_terminated_pool_ran_every_task<T>(s: PoolModel<T>)
    requires
        s.inv(),
        s.all_terminated(),
        s.stopped >= 1,
    ensures
        s.pending_runs() == 0,
        s.submitted.to_multiset() == s.completed.to_multiset().add(s.faulted.to_multiset()),
        s.submitted.len() == s.completed.len() + s.faulted.len(),
{
    lemma_in_flight_none(s.workers);
    assert(s.submitted.take(s.dispatched as int) =~= s.submitted);
    assert(s.completed.to_multiset().add(s.faulted.to_multiset()).add(Multiset::empty())
        =~= s.completed.to_multiset().add(s.faulted.to_multiset()));
    broadcast use vstd::multiset::group_multiset_axioms;
    vstd::seq_lib::to_multiset_len(s.submitted);
    vstd::seq_lib::to_multiset_len(s.completed);
    vstd::seq_lib::to_multiset_len(s.faulted);
}

/// Tasks submitted to a pool of at least one worker, which is then shut
/// down, have each run to completion exactly once by the time every worker
/// has terminated, whatever the number of workers and whatever the order in
/// which they took their messages: if no task faults, the completed tasks
/// are the submitted tasks, each as often as it was submitted.
pub proof fn law_every_task_runs_once<T>(size: nat, trace: Seq<Event<T>>)
    requires
        size >= 1,
        fault_free(trace),
        PoolModel::<T>::init(size).run(trace).all_terminated(),
    ensures
        shut_down(trace),
        PoolModel::<T>::init(size).run(trace).completed.to_multiset() == accepted(
            trace,
        ).to_multiset(),
        PoolModel::<T>::init(size).run(trace).completed.len() == accepted(trace).len(),
{
    let end = PoolModel::<T>::init(size).run(trace);
    lemma_run_history::<T>(size, trace);
    lemma_fault_free_run::<T>(size, trace);
    lemma_alive_count_bounds(end.workers);
    assert(end.stopped == size);
    law_terminated_pool_ran_every_task(end);
    lemma_empty_seq_bag::<T>();
    assert(end.faulted =~= Seq::<T>::empty());
    assert(end.completed.to_multiset().add(Multiset::empty()) =~= end.completed.to_multiset());
}

/// The number of workers does not change what gets done: two pools, of any
/// sizes and under any schedules, that were given the same tasks and ran
/// without faults until all their workers terminated, have completed the
/// same tasks.
pub proof fn law_pool_size_does_not_matter<T>(
    size_a: nat,
    trace_a: Seq<Event<T>>,
    size_b: nat,
    trace_b: Seq<Event<T>>,
)
    requires
        size_a >= 1,
        size_b >= 1,
        fault_free(trace_a),
        fault_free(trace_b),
        accepted(trace_a).to_multiset() == accepted(trace_b).to_multiset(),
        PoolModel::<T>::init(size_a).run(trace_a).all_terminated(),
        PoolModel::<T>::init(size_b).run(trace_b).all_terminated(),
    ensures
        PoolModel::<T>::init(size_a).run(trace_a).completed.to_multiset() == PoolModel::<T>::init(
            size_b,
        ).run(trace_b).completed.to_multiset(),
        PoolModel::<T>::init(size_a).run(trace_a).completed.len() == PoolModel::<T>::init(
            size_b,
        ).run(trace_b).completed.len(),
{
    law_every_task_runs_once::<T>(size_a, trace_a);
    law_every_task_runs_once::<T>(size_b, trace_b);
    vstd::seq_lib::to_multiset_len(accepted(trace_a));
    vstd::seq_lib::to_multiset_len(accepted(trace_b));
}

/// After shutdown has begun, no running worker waits in vain: an idle
/// worker always finds a message in the queue.
pub proof fn law_shutdown_leaves_no_worker_waiting<T>(s: PoolModel<T>, id: int)
    requires
        s.inv(),
        s.closed,
        s.is_idle(id),
    ensures
        s.can_receive(id),
{
    lemma_alive_count_bounds(s.workers);
    assert(s.workers[id].is_alive());
}

/// After shutdown has begun, the work left never grows, and every step by
/// which a worker receives a message or reports an outcome takes at least
/// one unit off it. The work left is never negative, so a pool that is
/// shutting down comes to rest after finitely many such steps.
pub proof fn law_shutdown_is_bounded<T>(s: PoolModel<T>, event: Event<T>)
    requires
        s.inv(),
        s.closed,
    ensures
        remaining_work(s) >= 0,
        remaining_work(s.step(event)) <= remaining_work(s),
        (event matches Event::Receive(id) && s.can_receive(id)) ==> remaining_work(s.step(event))
            < remaining_work(s),
        (event matches Event::Complete(id) && s.is_busy(id)) ==> remaining_work(s.step(event))
            < remaining_work(s),
        (event matches Event::Fault(id) && s.is_busy(id)) ==> remaining_work(s.step(event))
            < remaining_work(s),
{
    broadcast use vstd::multiset::group_multiset_axioms;
    vstd::seq_lib::to_multiset_len(s.submitted.take(s.dispatched as int));
    vstd::seq_lib::to_multiset_len(s.completed);
    vstd::seq_lib::to_multiset_len(s.faulted);
}

/// What holds at every moment after a pool with nothing queued and nobody
/// busy was shut down: the queue holds stop signals only, at least one for
/// each running worker, and no worker holds a task.
pub open spec fn winding_down<T>(s: PoolModel<T>) -> bool {
    &&& s.closed
    &&& s.queue.len() >= s.alive()
    &&& forall|i: int| 0 <= i < s.queue.len() ==> (#[trigger] s.queue[i]) is Stop
    &&& forall|i: int| 0 <= i < s.workers.len() ==> (#[trigger] s.workers[i]).task is None
    &&& s.completed.len() == 0
}

proof fn lemma_winding_down_step<T>(s: PoolModel<T>, event: Event<T>)
    requires
        winding_down(s),
    ensures
        winding_down(s.step(event)),
        s.step(event).size() == s.size(),
{
    let r = s.step(event);
    match event {
        Event::Receive(id) => {
            if s.can_receive(id) {
                lemma_alive_count_update(s.workers, id, r.workers[id]);
                assert(s.queue[0] is Stop);
                assert forall|i: int| 0 <= i < r.queue.len() implies (#[trigger] r.queue[i]) is Stop by {
                    assert(r.queue[i] == s.queue[i + 1]);
                }
            }
        },
        Event::SpawnFailed(id) => {
            if s.is_idle(id) {
                lemma_alive_count_update(s.workers, id, r.workers[id]);
            }
        },
        _ => {},
    }
}

proof fn lemma_winding_down_run<T>(s: PoolModel<T>, trace: Seq<Event<T>>)
    requires
        winding_down(s),
    ensures
        winding_down(s.run(trace)),
        s.run(trace).size() == s.size(),
    decreases trace.len(),
{
    if trace.len() > 0 {
        lemma_winding_down_run(s, trace.drop_last());
        lemma_winding_down_step(s.run(trace.drop_last()), trace.last());
    }
}

/// Shutdown with nothing queued cannot deadlock, whatever the size of the
/// pool: at every moment after it, whatever has happened since, each worker
/// that is still running finds a stop signal when it asks for its next
/// message and terminates on it. No worker depends on another, and no task
/// is run.
pub proof fn law_idle_shutdown_cannot_deadlock<T>(size: nat, after: Seq<Event<T>>, id: int)
    requires
        size >= 1,
        0 <= id < size,
    ensures
        ({
            let s = PoolModel::<T>::init(size).shutdown().run(after);
            &&& s.size() == size
            &&& s.completed.len() == 0
            &&& s.workers[id].is_alive() ==> s.can_receive(id) && s.delivery(id) == Some(
                ControlMessage::<T>::Stop,
            ) && !s.receive(id).workers[id].is_alive()
        }),
        PoolModel::<T>::init(size).shutdown().queue == Seq::new(
            size,
            |i: int| ControlMessage::<T>::Stop,
        ),
{
    let start = PoolModel::<T>::init(size).shutdown();
    lemma_init_inv::<T>(size);
    assert(start.queue =~= Seq::new(size, |i: int| ControlMessage::<T>::Stop));
    assert(winding_down(start));
    lemma_winding_down_run(start, after);
    let s = start.run(after);
    if s.workers[id].is_alive() {
        lemma_alive_count_bounds(s.workers);
        assert(s.queue[0] is Stop);
    }
}

/// A task that faults kills the worker that ran it and no other: every
/// other worker, the queue, and the record of completed tasks are as they
/// were, and the number of running workers drops by exactly one.
pub proof fn law_fault_kills_only_its_worker<T>(s: PoolModel<T>, id: int)
    requires
        s.is_busy(id),
    ensures
        s.fault(id).alive() == s.alive() - 1,
        !s.fault(id).workers[id].is_alive(),
        s.fault(id).size() == s.size(),
        forall|other: int|
            0 <= other < s.size() && other != id ==> (#[trigger] s.fault(id).workers[other])
                == s.workers[other],
        s.fault(id).queue == s.queue,
        s.fault(id).closed == s.closed,
        s.fault(id).completed == s.completed,
        s.fault(id).submitted == s.submitted,
        s.fault(id).faulted == s.faulted.push(s.workers[id].task->0),
{
    lemma_alive_count_update(s.workers, id, s.fault(id).workers[id]);
}

/// Shutdown is for good: whatever happens after it, the pool stays closed
/// and refuses every task submitted to it, leaving the pool untouched.
pub proof fn law_submit_after_shutdown_is_refused<T>(
    s: PoolModel<T>,
    after: Seq<Event<T>>,
    task: T,
)
    ensures
        s.shutdown().run(after).closed,
        s.shutdown().run(after).submit(task) == s.shutdown().run(after),
        s.shutdown().run(after).submitted == s.submitted,
    decreases after.len(),
{
    if after.len() > 0 {
        law_submit_after_shutdown_is_refused(s, after.drop_last(), task);
    }
}

/// A second shutdown changes nothing.
pub proof fn law_shutdown_is_idempotent<T>(s: PoolModel<T>)
    ensures
        s.shutdown().shutdown() == s.shutdown(),
{
}

/// Tasks leave the queue in the order in which they were submitted: the
/// task a worker is handed is the oldest accepted task not yet handed out.
pub proof fn law_tasks_are_dispatched_in_order<T>(s: PoolModel<T>, id: int)
    requires
        s.inv(),
        s.can_receive(id),
    ensures
        s.pending_runs() > 0 ==> s.delivery(id) == Some(
            ControlMessage::Run(s.submitted[s.dispatched as int]),
        ),
        s.pending_runs() == 0 ==> s.delivery(id) == Some(ControlMessage::<T>::Stop),
{
    if s.pending_runs() > 0 {
        assert(s.queue[0] == ControlMessage::Run(s.submitted[s.dispatched as int]));
    } else {
        assert(s.queue[0] is Stop);
    }
}

} // verus!
