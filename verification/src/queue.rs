//! The dispatch queue: one unbounded FIFO of control messages.

use std::collections::VecDeque;
use vstd::prelude::*;

use crate::error::PoolError;
use crate::message::ControlMessage;

verus! {

/// An ordered, unbounded queue of control messages.
///
/// Messages leave in the order they were sent, each of them once. A closed
/// queue takes no more messages; what it holds can still be received.
pub struct DispatchQueue<T> {
    messages: VecDeque<ControlMessage<T>>,
    closed: bool,
}

impl<T> View for DispatchQueue<T> {
    type V = Seq<ControlMessage<T>>;

    /// The messages waiting in the queue, oldest first.
    closed spec fn view(&self) -> Seq<ControlMessage<T>> {
        self.messages@
    }
}

impl<T> DispatchQueue<T> {
    /// Whether the queue has stopped taking messages.
    pub closed spec fn closed(&self) -> bool {
        self.closed
    }

    /// An empty queue that takes messages.
    pub fn new() -> (queue: Self)
        ensures
            queue@ == Seq::<ControlMessage<T>>::empty(),
            !queue.closed(),
    {
        DispatchQueue { messages: VecDeque::new(), closed: false }
    }

    /// Puts `message` at the back of the queue, unless the queue is closed.
    pub fn send(&mut self, message: ControlMessage<T>) -> (sent: Result<(), PoolError>)
        ensures
            final(self).closed() == old(self).closed(),
            old(self).closed() ==> sent == Err::<(), PoolError>(PoolError::QueueClosed)
                && final(self)@ == old(self)@,
            !old(self).closed() ==> sent == Ok::<(), PoolError>(())
                && final(self)@ == old(self)@.push(message),
    {
        if self.closed {
            Err(PoolError::QueueClosed)
        } else {
            self.messages.push_back(message);
            Ok(())
        }
    }

    /// Takes the oldest message out of the queue, if there is one.
    pub fn receive(&mut self) -> (message: Option<ControlMessage<T>>)
        ensures
            final(self).closed() == old(self).closed(),
            old(self)@.len() == 0 ==> message.is_none() && final(self)@ == old(self)@,
            old(self)@.len() > 0 ==> message == Some(old(self)@[0])
                && final(self)@ == old(self)@.skip(1),
    {
        let message = self.messages.pop_front();
        proof {
            if old(self)@.len() > 0 {
                assert(old(self)@.subrange(1, old(self)@.len() as int) =~= old(self)@.skip(1));
            }
        }
        message
    }

    /// Closes the queue: every later `send` is refused.
    pub fn close(&mut self)
        ensures
            final(self).closed(),
            final(self)@ == old(self)@,
    {
        self.closed = true;
    }

    /// Whether the queue has stopped taking messages.
    pub fn is_closed(&self) -> (closed: bool)
        ensures
            closed == self.closed(),
    {
        self.closed
    }

    /// How many messages are waiting.
    pub fn len(&self) -> (n: usize)
        ensures
            n == self@.len(),
    {
        self.messages.len()
    }

    /// Whether no message is waiting.
    pub fn is_empty(&self) -> (empty: bool)
        ensures
            empty <==> self@.len() == 0,
    {
        self.messages.len() == 0
    }
}

} // verus!
