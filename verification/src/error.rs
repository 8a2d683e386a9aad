//! The failures a pool can report.

use vstd::prelude::*;

verus! {

/// Why a pool operation did not do what was asked.
#[derive(Clone, Copy, Debug, PartialEq, Eq, Structural)]
pub enum PoolError {
    /// A pool was requested with zero workers.
    InvalidConfiguration,
    /// A task was submitted after shutdown had begun.
    QueueClosed,
    /// A task raised an unhandled fault; the worker that ran it is dead.
    WorkerFault,
    /// No thread of execution could be created for a worker.
    SpawnFailure,
}

impl PoolError {
    /// A short description of the failure.
    pub fn message(&self) -> (text: &'static str)
        ensures
            text@ == match *self {
                PoolError::InvalidConfiguration => "pool size must be greater than zero"@,
                PoolError::QueueClosed => "the dispatch queue is closed"@,
                PoolError::WorkerFault => "a task faulted and took its worker with it"@,
                PoolError::SpawnFailure => "a worker thread could not be created"@,
            },
    {
        match self {
            PoolError::InvalidConfiguration => "pool size must be greater than zero",
            PoolError::QueueClosed => "the dispatch queue is closed",
            PoolError::WorkerFault => "a task faulted and took its worker with it",
            PoolError::SpawnFailure => "a worker thread could not be created",
        }
    }
}

} // verus!
