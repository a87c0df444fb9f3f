//! One worker of the pool, as a state machine. The thread that embodies the
//! worker does the waiting and runs the jobs; what it does next is decided
//! here, from the worker's state and from what has just happened to it.

use crate::message::Message;
use vstd::prelude::*;

verus! {

/// Where a worker stands.
#[derive(Clone, Copy, PartialEq, Eq, Structural, Debug)]
pub enum WorkerState {
    /// Waiting for a message.
    Idle,
    /// Running a job it took from the queue.
    Executing,
    /// Stopped for good. A stopped worker is never started again.
    Terminated,
}

/// Why a worker stopped.
#[derive(Clone, Copy, PartialEq, Eq, Structural, Debug)]
pub enum StopReason {
    /// It took a `Terminate` message.
    TerminateReceived,
    /// The queue was closed and empty.
    Disconnected,
    /// The lock that guards the queue was found poisoned.
    LockPoisoned,
}

/// What can happen to a worker.
pub enum WorkerEvent<J> {
    /// It took this message from the queue.
    Received(Message<J>),
    /// It found the queue empty but open.
    QueueEmpty,
    /// It found the queue empty and closed.
    Disconnected,
    /// It could not take the lock that guards the queue.
    LockPoisoned,
    /// The job it was running has returned.
    JobFinished,
}

/// What a worker has to do next.
pub enum WorkerAction<J> {
    /// Run this job, then report `JobFinished`.
    Run(J),
    /// Ask the queue for the next message.
    Poll,
    /// Wait, holding no lock, until the queue has changed; then ask again.
    Wait,
    /// Leave the loop: the worker has stopped.
    Stop(StopReason),
}

/// A worker: its ordinal in the pool, its state, and why it stopped if it
/// has.
#[derive(Clone, Copy, Debug)]
pub struct Worker {
    /// The worker's ordinal in its pool, counted from 0 in creation order.
    pub id: usize,
    /// Where the worker stands.
    pub state: WorkerState,
    /// Why the worker stopped; `None` while it has not.
    pub stopped: Option<StopReason>,
}

/// The state a worker is in after `event` reached it in `state`. A waiting
/// worker begins to run the job it receives, and stops when it receives
/// `Terminate`, when the queue is closed and empty, or when the lock is
/// poisoned. A worker that runs a job waits again when the job returns.
/// Nothing else changes a worker's state.
pub open spec fn state_after<J>(state: WorkerState, event: WorkerEvent<J>) -> WorkerState {
    match (state, event) {
        (WorkerState::Idle, WorkerEvent::Received(Message::NewJob(_))) => WorkerState::Executing,
        (WorkerState::Idle, WorkerEvent::Received(Message::Terminate)) => WorkerState::Terminated,
        (WorkerState::Idle, WorkerEvent::Disconnected) => WorkerState::Terminated,
        (WorkerState::Idle, WorkerEvent::LockPoisoned) => WorkerState::Terminated,
        (WorkerState::Executing, WorkerEvent::JobFinished) => WorkerState::Idle,
        _ => state,
    }
}

/// What a worker does in answer to `event`.
pub open spec fn action_for<J>(event: WorkerEvent<J>) -> WorkerAction<J> {
    match event {
        WorkerEvent::Received(Message::NewJob(job)) => WorkerAction::Run(job),
        WorkerEvent::Received(Message::Terminate) => WorkerAction::Stop(
            StopReason::TerminateReceived,
        ),
        WorkerEvent::QueueEmpty => WorkerAction::Wait,
        WorkerEvent::Disconnected => WorkerAction::Stop(StopReason::Disconnected),
        WorkerEvent::LockPoisoned => WorkerAction::Stop(StopReason::LockPoisoned),
        WorkerEvent::JobFinished => WorkerAction::Poll,
    }
}

/// The reason recorded when `action` stops a worker.
pub open spec fn reason_of<J>(action: WorkerAction<J>) -> Option<StopReason> {
    match action {
        WorkerAction::Stop(reason) => Some(reason),
        _ => None,
    }
}

impl Worker {
    /// A worker records a reason exactly when it has stopped.
    pub open spec fn wf(self) -> bool {
        self.stopped is Some <==> self.state == WorkerState::Terminated
    }

    /// Whether `event` can reach a worker in this state: a job finishes only
    /// under a worker that runs one, and everything else happens only to a
    /// worker that waits.
    pub open spec fn accepts<J>(self, event: WorkerEvent<J>) -> bool {
        match event {
            WorkerEvent::JobFinished => self.state == WorkerState::Executing,
            _ => self.state == WorkerState::Idle,
        }
    }

    /// The worker after `event`: same ordinal, the state that the event
    /// leads to, and the reason if the event stops it.
    pub open spec fn after<J>(self, event: WorkerEvent<J>) -> Worker {
        Worker {
            id: self.id,
            state: state_after(self.state, event),
            stopped: if self.accepts(event) {
                reason_of(action_for(event))
            } else {
                self.stopped
            },
        }
    }

    /// Whether the worker stopped because it took a `Terminate` message.
    pub open spec fn stopped_by_signal(self) -> bool {
        self.stopped == Some(StopReason::TerminateReceived)
    }

    /// A new worker with ordinal `id`, waiting for its first message.
    pub fn new(id: usize) -> (w: Worker)
        ensures
            w == (Worker { id, state: WorkerState::Idle, stopped: None }),
    {
        Worker { id, state: WorkerState::Idle, stopped: None }
    }

    /// Takes the worker through `event` and says what it has to do next.
    pub fn step<J>(&mut self, event: WorkerEvent<J>) -> (action: WorkerAction<J>)
        requires
            old(self).wf(),
            old(self).accepts(event),
        ensures
            *final(self) == old(self).after(event),
            action == action_for(event),
            final(self).wf(),
    {
        match event {
            WorkerEvent::Received(Message::NewJob(job)) => {
                self.state = WorkerState::Executing;
                WorkerAction::Run(job)
            },
            WorkerEvent::Received(Message::Terminate) => {
                self.state = WorkerState::Terminated;
                self.stopped = Some(StopReason::TerminateReceived);
                WorkerAction::Stop(StopReason::TerminateReceived)
            },
            WorkerEvent::QueueEmpty => WorkerAction::Wait,
            WorkerEvent::Disconnected => {
                self.state = WorkerState::Terminated;
                self.stopped = Some(StopReason::Disconnected);
                WorkerAction::Stop(StopReason::Disconnected)
            },
            WorkerEvent::LockPoisoned => {
                self.state = WorkerState::Terminated;
                self.stopped = Some(StopReason::LockPoisoned);
                WorkerAction::Stop(StopReason::LockPoisoned)
            },
            WorkerEvent::JobFinished => {
                self.state = WorkerState::Idle;
                WorkerAction::Poll
            },
        }
    }
}

} // verus!
