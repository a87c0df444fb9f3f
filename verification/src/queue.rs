//! The job queue: an unbounded first-in, first-out channel of messages that
//! can be closed. Sending never waits. Receiving never waits either: where a
//! blocking channel would park the caller, `receive` answers `Empty`, and the
//! caller waits outside, holding no lock, until the queue has changed.

use crate::message::Message;
use std::collections::VecDeque;
use vstd::prelude::*;

verus! {

/// Why `receive` handed out no message.
#[derive(Clone, Copy, PartialEq, Eq, Structural, Debug)]
pub enum ReceiveError {
    /// Nothing is queued, but the queue is open: a message may still come.
    Empty,
    /// Nothing is queued and the queue is closed: no message will ever come.
    Disconnected,
}

/// A message that a closed queue refused. It is handed back unchanged.
pub struct SendError<J>(pub Message<J>);

/// A queue of messages. Its view is what is queued, oldest first.
pub struct JobQueue<J> {
    messages: VecDeque<Message<J>>,
    closed: bool,
}

impl<J> View for JobQueue<J> {
    type V = Seq<Message<J>>;

    closed spec fn view(&self) -> Seq<Message<J>> {
        self.messages@
    }
}

impl<J> JobQueue<J> {
    /// Whether the queue has been closed to senders.
    pub closed spec fn closed(&self) -> bool {
        self.closed
    }

    /// An open queue that holds nothing.
    pub fn new() -> (q: Self)
        ensures
            q@ == Seq::<Message<J>>::empty(),
            !q.closed(),
    {
        JobQueue { messages: VecDeque::new(), closed: false }
    }

    /// Puts `message` at the tail, unless the queue is closed: then nothing
    /// changes and the message comes back in the error.
    pub fn send(&mut self, message: Message<J>) -> (r: Result<(), SendError<J>>)
        ensures
            final(self).closed() == old(self).closed(),
            old(self).closed() ==> r == Err::<(), SendError<J>>(SendError(message)) && final(self)@
                == old(self)@,
            !old(self).closed() ==> r is Ok && final(self)@ == old(self)@.push(message),
    {
        if self.closed {
            Err(SendError(message))
        } else {
            self.messages.push_back(message);
            Ok(())
        }
    }

    /// Takes the oldest message. A closed queue still hands out what was
    /// queued before it was closed; only when nothing is left does it report
    /// `Disconnected`.
    pub fn receive(&mut self) -> (r: Result<Message<J>, ReceiveError>)
        ensures
            final(self).closed() == old(self).closed(),
            old(self)@.len() > 0 ==> r == Ok::<Message<J>, ReceiveError>(old(self)@[0])
                && final(self)@ == old(self)@.drop_first(),
            old(self)@.len() == 0 ==> final(self)@ == old(self)@ && r == Err::<
                Message<J>,
                ReceiveError,
            >(
                if old(self).closed() {
                    ReceiveError::Disconnected
                } else {
                    ReceiveError::Empty
                },
            ),
    {
        match self.messages.pop_front() {
            Some(message) => Ok(message),
            None => {
                if self.closed {
                    Err(ReceiveError::Disconnected)
                } else {
                    Err(ReceiveError::Empty)
                }
            },
        }
    }

    /// Closes the queue to senders. What is queued stays queued.
    pub fn close(&mut self)
        ensures
            final(self).closed(),
            final(self)@ == old(self)@,
    {
        self.closed = true;
    }

    /// Whether the queue has been closed to senders.
    pub fn is_closed(&self) -> (b: bool)
        ensures
            b == self.closed(),
    {
        self.closed
    }

    /// How many messages are queued.
    pub fn len(&self) -> (n: usize)
        ensures
            n == self@.len(),
    {
        proof {
            vstd::std_specs::vecdeque::axiom_spec_len(&self.messages);
        }
        self.messages.len()
    }
}

} // verus!
