//! The messages that travel through the dispatch queue.

use vstd::prelude::*;

verus! {

/// What the pool tells a worker: run a unit of work, or stop.
///
/// `T` is the task, an opaque one-shot unit of work. The pool never looks
/// inside it; it only passes it on, to exactly one worker.
pub enum ControlMessage<T> {
    /// Carries one task, to be run to completion by the worker that receives it.
    Run(T),
    /// Ends the worker that receives it. Carries nothing.
    Stop,
}

impl<T> ControlMessage<T> {
    /// Whether this is the stop signal.
    pub fn is_stop(&self) -> (stop: bool)
        ensures
            stop <==> *self is Stop,
    {
        match self {
            ControlMessage::Run(_) => false,
            ControlMessage::Stop => true,
        }
    }

    /// The task this message carries, if it carries one.
    pub fn into_task(self) -> (task: Option<T>)
        ensures
            task == match self {
                ControlMessage::Run(t) => Some(t),
                ControlMessage::Stop => None,
            },
    {
        match self {
            ControlMessage::Run(t) => Some(t),
            ControlMessage::Stop => None,
        }
    }
}

} // verus!
