//! One worker of the pool, as the state machine that its thread follows.

use vstd::prelude::*;

use crate::error::PoolError;
use crate::message::ControlMessage;

verus! {

/// Where a worker is in its life. `Running` is where it starts, `Terminated`
/// is where it ends, and nothing leads back.
#[derive(Clone, Copy, Debug, PartialEq, Eq, Structural)]
pub enum WorkerState {
    /// The worker takes messages and runs tasks.
    Running,
    /// The worker has stopped, or died of a fault. It takes no more messages.
    Terminated,
}

/// How the run of a task ended.
#[derive(Clone, Copy, Debug, PartialEq, Eq, Structural)]
pub enum TaskOutcome {
    /// The task ran to completion.
    Completed,
    /// The task raised a fault that nothing handled.
    Faulted,
}

/// A worker slot: an identifier, a state, and whether a task is in its hands.
#[derive(Clone, Copy, Debug)]
pub struct Worker {
    id: usize,
    state: WorkerState,
    busy: bool,
}

impl Worker {
    /// The worker's identifier.
    pub closed spec fn spec_id(&self) -> usize {
        self.id
    }

    /// The worker's state.
    pub closed spec fn spec_state(&self) -> WorkerState {
        self.state
    }

    /// Whether the worker has been handed a task whose outcome is not yet known.
    pub closed spec fn spec_is_busy(&self) -> bool {
        self.busy
    }

    /// Running, with no task in hand: the worker may take the next message.
    pub open spec fn spec_is_idle(&self) -> bool {
        self.state() is Running && !self.is_busy()
    }

    /// A terminated worker holds no task.
    #[verifier::type_invariant]
    spec fn wf(&self) -> bool {
        self.state is Terminated ==> !self.busy
    }

    /// A running worker with the given identifier and no task.
    pub fn new(id: usize) -> (worker: Worker)
        ensures
            worker.id() == id,
            worker.state() is Running,
            !worker.is_busy(),
    {
        Worker { id, state: WorkerState::Running, busy: false }
    }

    /// The worker's identifier.
    #[verifier::when_used_as_spec(spec_id)]
    pub fn id(&self) -> (id: usize)
        ensures
            id == self.spec_id(),
    {
        self.id
    }

    /// The worker's state.
    #[verifier::when_used_as_spec(spec_state)]
    pub fn state(&self) -> (state: WorkerState)
        ensures
            state == self.spec_state(),
    {
        self.state
    }

    /// Whether the worker has been handed a task whose outcome is not yet
    /// known. Only a running worker is busy.
    #[verifier::when_used_as_spec(spec_is_busy)]
    pub fn is_busy(&self) -> (busy: bool)
        ensures
            busy == self.spec_is_busy(),
            busy ==> self.state() is Running,
    {
        proof {
            use_type_invariant(&*self);
        }
        self.busy
    }

    /// Whether the worker is running.
    pub fn is_alive(&self) -> (alive: bool)
        ensures
            alive <==> self.state() is Running,
    {
        match self.state {
            WorkerState::Running => true,
            WorkerState::Terminated => false,
        }
    }

    /// Whether the worker may take the next message.
    #[verifier::when_used_as_spec(spec_is_idle)]
    pub fn is_idle(&self) -> (idle: bool)
        ensures
            idle == self.spec_is_idle(),
    {
        self.is_alive() && !self.busy
    }

    /// Acts on a message that this worker has received: a task goes into
    /// the worker's hands, to be run on the worker's thread; a stop signal
    /// terminates the worker. Only an idle worker receives messages.
    pub fn accept<T>(&mut self, message: &ControlMessage<T>)
        requires
            old(self).is_idle(),
        ensures
            final(self).id() == old(self).id(),
            final(self).state() == (if *message is Stop {
                WorkerState::Terminated
            } else {
                WorkerState::Running
            }),
            final(self).is_busy() == (*message is Run),
    {
        match message {
            ControlMessage::Run(_) => {
                self.busy = true;
            },
            ControlMessage::Stop => {
                self.state = WorkerState::Terminated;
            },
        }
    }

    /// Records how the task in this worker's hands ended.
    ///
    /// After a completed task the worker is idle again. A faulted task takes
    /// the worker with it: the worker terminates, and `WorkerFault` tells its
    /// thread to end. A worker with no task in hand is left as it is.
    pub fn finish(&mut self, outcome: TaskOutcome) -> (next: Result<(), PoolError>)
        ensures
            final(self).id() == old(self).id(),
            !final(self).is_busy(),
            old(self).is_busy() && outcome is Faulted ==> {
                &&& next == Err::<(), PoolError>(PoolError::WorkerFault)
                &&& final(self).state() is Terminated
            },
            !(old(self).is_busy() && outcome is Faulted) ==> {
                &&& next == Ok::<(), PoolError>(())
                &&& final(self).state() == old(self).state()
            },
    {
        if !self.busy {
            return Ok(());
        }
        self.busy = false;
        match outcome {
            TaskOutcome::Completed => Ok(()),
            TaskOutcome::Faulted => {
                self.state = WorkerState::Terminated;
                Err(PoolError::WorkerFault)
            },
        }
    }

    /// Records that no thread could be created for this worker: if it is
    /// idle, it terminates without ever having received a message.
    pub fn abandon(&mut self) -> (abandoned: bool)
        ensures
            final(self).id() == old(self).id(),
            abandoned == old(self).is_idle(),
            abandoned ==> final(self).state() is Terminated && !final(self).is_busy(),
            !abandoned ==> *final(self) == *old(self),
    {
        if self.is_idle() {
            self.state = WorkerState::Terminated;
            true
        } else {
            false
        }
    }
}

} // verus!
