//! Proofs that the pool's invariant holds at the start and survives every step.

use vstd::multiset::Multiset;
use vstd::prelude::*;

use crate::message::ControlMessage;
use crate::model::{
    in_flight, lemma_alive_count_bounds, lemma_alive_count_update, lemma_in_flight_none,
    lemma_in_flight_update, Event, PoolModel,
};

verus! {

/// The empty sequence holds nothing.
pub proof fn lemma_empty_seq_bag<T>()
    ensures
        Seq::<T>::empty().to_multiset() == Multiset::<T>::empty(),
{
    vstd::seq_lib::to_multiset_len(Seq::<T>::empty());
    vstd::multiset::lemma_multiset_empty_len(Seq::<T>::empty().to_multiset());
}

/// A new pool has all its workers running and satisfies the invariant.
pub proof fn lemma_init_inv<T>(size: nat)
    ensures
        PoolModel::<T>::init(size).inv(),
        PoolModel::<T>::init(size).alive() == size,
        PoolModel::<T>::init(size).size() == size,
{
    let s = PoolModel::<T>::init(size);
    lemma_alive_count_bounds(s.workers);
    lemma_in_flight_none(s.workers);
    lemma_empty_seq_bag::<T>();
    assert(s.submitted.take(0) =~= Seq::<T>::empty());
    assert(s.completed.to_multiset().add(s.faulted.to_multiset()).add(in_flight(s.workers))
        =~= Multiset::<T>::empty());
}

/// Submission keeps the invariant.
pub proof fn lemma_submit_inv<T>(s: PoolModel<T>, task: T)
    requires
        s.inv(),
    ensures
        s.submit(task).inv(),
{
    let r = s.submit(task);
    if !s.closed {
        assert(r.submitted.take(r.dispatched as int) =~= s.submitted.take(s.dispatched as int));
        assert forall|i: int| 0 <= i < r.pending_runs() implies #[trigger] r.queue[i]
            == ControlMessage::Run(r.submitted[r.dispatched + i]) by {
            if i < s.pending_runs() {
                assert(r.queue[i] == s.queue[i]);
            }
        }
    }
}

/// Shutdown keeps the invariant.
pub proof fn lemma_shutdown_inv<T>(s: PoolModel<T>)
    requires
        s.inv(),
    ensures
        s.shutdown().inv(),
        s.shutdown().closed,
{
    let r = s.shutdown();
    if !s.closed {
        assert forall|i: int| 0 <= i < r.pending_runs() implies #[trigger] r.queue[i]
            == ControlMessage::Run(r.submitted[r.dispatched + i]) by {
            assert(r.queue[i] == s.queue[i]);
        }
    }
}

/// Receipt keeps the invariant.
pub proof fn lemma_receive_inv<T>(s: PoolModel<T>, id: int)
    requires
        s.inv(),
    ensures
        s.receive(id).inv(),
{
    let r = s.receive(id);
    if s.can_receive(id) {
        lemma_alive_count_update(s.workers, id, r.workers[id]);
        lemma_in_flight_update(s.workers, id, r.workers[id]);
        assert(s.workers[id].held() =~= Multiset::<T>::empty());
        match s.queue[0] {
            ControlMessage::Run(task) => {
                assert(s.pending_runs() > 0);
                assert(task == s.submitted[s.dispatched as int]);
                assert(r.submitted.take(r.dispatched as int) =~= s.submitted.take(
                    s.dispatched as int,
                ).push(task));
                vstd::seq_lib::to_multiset_build(s.submitted.take(s.dispatched as int), task);
                assert(r.workers[id].held() =~= Multiset::singleton(task));
                assert(in_flight(r.workers) =~= in_flight(s.workers).insert(task));
                assert(r.submitted.take(r.dispatched as int).to_multiset()
                    =~= r.completed.to_multiset().add(r.faulted.to_multiset()).add(
                    in_flight(r.workers),
                ));
                assert forall|i: int| 0 <= i < r.pending_runs() implies #[trigger] r.queue[i]
                    == ControlMessage::Run(r.submitted[r.dispatched + i]) by {
                    assert(r.queue[i] == s.queue[i + 1]);
                }
                assert forall|i: int| r.pending_runs() <= i < r.queue.len() implies #[trigger] r.queue[i] is Stop by {
                    assert(r.queue[i] == s.queue[i + 1]);
                }
            },
            ControlMessage::Stop => {
                assert(s.pending_runs() == 0);
                assert(r.workers[id].held() =~= Multiset::<T>::empty());
                assert(in_flight(r.workers) =~= in_flight(r.workers).add(Multiset::empty()));
                assert(in_flight(s.workers) =~= in_flight(s.workers).add(Multiset::empty()));
                assert forall|i: int| r.pending_runs() <= i < r.queue.len() implies #[trigger] r.queue[i] is Stop by {
                    assert(r.queue[i] == s.queue[i + 1]);
                }
            },
        }
    }
}

/// Completion keeps the invariant.
pub proof fn lemma_complete_inv<T>(s: PoolModel<T>, id: int)
    requires
        s.inv(),
    ensures
        s.complete(id).inv(),
{
    let r = s.complete(id);
    if s.is_busy(id) {
        let task = s.workers[id].task->0;
        lemma_alive_count_update(s.workers, id, r.workers[id]);
        lemma_in_flight_update(s.workers, id, r.workers[id]);
        vstd::seq_lib::to_multiset_build(s.completed, task);
        assert(s.workers[id].held() =~= Multiset::singleton(task));
        assert(r.workers[id].held() =~= Multiset::<T>::empty());
        assert(in_flight(s.workers) =~= in_flight(r.workers).insert(task));
        assert(s.submitted.take(s.dispatched as int).to_multiset() =~= r.completed.to_multiset().add(
            r.faulted.to_multiset(),
        ).add(in_flight(r.workers)));
    }
}

/// A fault keeps the invariant.
pub proof fn lemma_fault_inv<T>(s: PoolModel<T>, id: int)
    requires
        s.inv(),
    ensures
        s.fault(id).inv(),
{
    let r = s.fault(id);
    if s.is_busy(id) {
        let task = s.workers[id].task->0;
        lemma_alive_count_update(s.workers, id, r.workers[id]);
        lemma_in_flight_update(s.workers, id, r.workers[id]);
        vstd::seq_lib::to_multiset_build(s.faulted, task);
        assert(s.workers[id].held() =~= Multiset::singleton(task));
        assert(r.workers[id].held() =~= Multiset::<T>::empty());
        assert(in_flight(s.workers) =~= in_flight(r.workers).insert(task));
        assert(s.submitted.take(s.dispatched as int).to_multiset() =~= r.completed.to_multiset().add(
            r.faulted.to_multiset(),
        ).add(in_flight(r.workers)));
    }
}

/// A failed spawn keeps the invariant.
pub proof fn lemma_spawn_failed_inv<T>(s: PoolModel<T>, id: int)
    requires
        s.inv(),
    ensures
        s.spawn_failed(id).inv(),
{
    let r = s.spawn_failed(id);
    if s.is_idle(id) {
        lemma_alive_count_update(s.workers, id, r.workers[id]);
        lemma_in_flight_update(s.workers, id, r.workers[id]);
        assert(s.workers[id].held() =~= Multiset::<T>::empty());
        assert(r.workers[id].held() =~= Multiset::<T>::empty());
        assert(in_flight(r.workers) =~= in_flight(r.workers).add(Multiset::empty()));
        assert(in_flight(s.workers) =~= in_flight(s.workers).add(Multiset::empty()));
    }
}

/// Every event keeps the invariant.
pub proof fn lemma_step_inv<T>(s: PoolModel<T>, event: Event<T>)
    requires
        s.inv(),
    ensures
        s.step(event).inv(),
{
    match event {
        Event::Submit(task) => lemma_submit_inv(s, task),
        Event::Shutdown => lemma_shutdown_inv(s),
        Event::Receive(id) => lemma_receive_inv(s, id),
        Event::Complete(id) => lemma_complete_inv(s, id),
        Event::Fault(id) => lemma_fault_inv(s, id),
        Event::SpawnFailed(id) => lemma_spawn_failed_inv(s, id),
    }
}

/// The invariant holds after any sequence of events.
pub proof fn lemma_run_inv<T>(s: PoolModel<T>, trace: Seq<Event<T>>)
    requires
        s.inv(),
    ensures
        s.run(trace).inv(),
    decreases trace.len(),
{
    if trace.len() > 0 {
        lemma_run_inv(s, trace.drop_last());
        lemma_step_inv(s.run(trace.drop_last()), trace.last());
    }
}

} // verus!
