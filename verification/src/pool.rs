//! The worker pool: a fixed set of workers around one job queue. The pool
//! holds no thread. Its owner submits jobs and ends it; each worker's thread
//! asks it what to do next and reports what happened. Every call is one step
//! of the transition system in `model`, and the pool's invariant is that
//! system's invariant.

use crate::guarantees::{
    lemma_dispatch_inv,
    lemma_finish_inv,
    lemma_init_inv,
    lemma_poison_inv,
    lemma_shut_down_inv,
    lemma_submit_inv,
};
use crate::message::Message;
use crate::model::PoolView;
use crate::queue::{JobQueue, ReceiveError};
use crate::worker::{action_for, Worker, WorkerAction, WorkerEvent, WorkerState};
use vstd::prelude::*;

verus! {

/// A pool of workers that run jobs of type `J`.
pub struct ThreadPool<J> {
    workers: Vec<Worker>,
    queue: JobQueue<J>,
    submitted: Ghost<Seq<J>>,
    delivered: Ghost<Seq<J>>,
    completed: Ghost<nat>,
}

impl<J> View for ThreadPool<J> {
    type V = PoolView<J>;

    closed spec fn view(&self) -> PoolView<J> {
        PoolView {
            workers: self.workers@,
            queue: self.queue@,
            accepting: !self.queue.closed(),
            submitted: self.submitted@,
            delivered: self.delivered@,
            completed: self.completed@,
        }
    }
}

impl<J> ThreadPool<J> {
    /// The pool is in a state that the transition system allows.
    pub open spec fn wf(&self) -> bool {
        self@.inv()
    }

    /// A pool of `size` waiting workers, numbered from 0, with an empty
    /// queue. There is no pool without workers.
    pub fn new(size: usize) -> (pool: ThreadPool<J>)
        requires
            size > 0,
        ensures
            pool@ == PoolView::<J>::init(size as nat),
            pool.wf(),
    {
        let mut workers: Vec<Worker> = Vec::new();
        let mut id: usize = 0;
        while id < size
            invariant
                id <= size,
                workers@.len() == id,
                forall|i: int|
                    0 <= i < id ==> #[trigger] workers@[i] == (Worker {
                        id: i as usize,
                        state: WorkerState::Idle,
                        stopped: None,
                    }),
            decreases size - id,
        {
            workers.push(Worker::new(id));
            id += 1;
        }
        let pool = ThreadPool {
            workers,
            queue: JobQueue::new(),
            submitted: Ghost(Seq::empty()),
            delivered: Ghost(Seq::empty()),
            completed: Ghost(0),
        };
        proof {
            assert(pool@.workers =~= PoolView::<J>::init(size as nat).workers);
            lemma_init_inv::<J>(size as nat);
        }
        pool
    }

    /// Submits `job`: it goes to the tail of the queue, behind every job
    /// submitted before, and no worker is touched. The pool must still be
    /// taking jobs.
    pub fn execute(&mut self, job: J)
        requires
            old(self).wf(),
            old(self)@.accepting,
        ensures
            final(self)@ == old(self)@.submit(job),
            final(self).wf(),
    {
        let _ = self.queue.send(Message::NewJob(job));
        self.submitted = Ghost(self.submitted@.push(job));
        proof {
            lemma_submit_inv(old(self)@, job);
        }
    }

    /// Begins teardown: queues one `Terminate` for every worker, closes the
    /// queue, and returns the ordinals of the workers whose end the owner has
    /// to wait for, in creation order. On a pool that was torn down before,
    /// nothing is queued and nobody is left to wait for.
    pub fn teardown(&mut self) -> (join: Vec<usize>)
        requires
            old(self).wf(),
        ensures
            final(self)@ == old(self)@.shut_down(),
            final(self).wf(),
            join@.len() == if old(self)@.accepting {
                old(self)@.workers.len()
            } else {
                0
            },
            forall|i: int| 0 <= i < join@.len() ==> #[trigger] join@[i] == i,
    {
        let mut join: Vec<usize> = Vec::new();
        if !self.queue.is_closed() {
            let size = self.workers.len();
            let mut sent: usize = 0;
            while sent < size
                invariant
                    sent <= size,
                    size == self.workers@.len(),
                    self.workers == old(self).workers,
                    self.submitted == old(self).submitted,
                    self.delivered == old(self).delivered,
                    self.completed == old(self).completed,
                    !self.queue.closed(),
                    self.queue@ == old(self).queue@ + Seq::new(
                        sent as nat,
                        |i: int| Message::<J>::Terminate,
                    ),
                    join@.len() == sent,
                    forall|i: int| 0 <= i < sent ==> #[trigger] join@[i] == i,
                decreases size - sent,
            {
                let _ = self.queue.send(Message::Terminate);
                join.push(sent);
                sent += 1;
                assert(self.queue@ =~= old(self).queue@ + Seq::new(
                    sent as nat,
                    |i: int| Message::<J>::Terminate,
                ));
            }
            self.queue.close();
        }
        proof {
            lemma_shut_down_inv(old(self)@);
        }
        join
    }

    /// The waiting worker `worker` asks the queue. It alone gets the oldest
    /// message, if there is one, and the answer says what it has to do: run
    /// the job it got, stop, or wait for the queue to change.
    pub fn next_action(&mut self, worker: usize) -> (action: WorkerAction<J>)
        requires
            old(self).wf(),
            old(self)@.worker_is(worker as int, WorkerState::Idle),
        ensures
            final(self)@ == old(self)@.dispatch(worker as int),
            action == action_for(old(self)@.found()),
            final(self).wf(),
    {
        let event = match self.queue.receive() {
            Ok(message) => WorkerEvent::Received(message),
            Err(ReceiveError::Empty) => WorkerEvent::QueueEmpty,
            Err(ReceiveError::Disconnected) => WorkerEvent::Disconnected,
        };
        if let WorkerEvent::Received(Message::NewJob(job)) = &event {
            self.delivered = Ghost(self.delivered@.push(*job));
        }
        let mut w = self.workers[worker];
        let action = w.step(event);
        self.workers.set(worker, w);
        proof {
            lemma_dispatch_inv(old(self)@, worker as int);
        }
        action
    }

    /// The job that `worker` was running has returned: the worker waits
    /// again.
    pub fn job_finished(&mut self, worker: usize)
        requires
            old(self).wf(),
            old(self)@.worker_is(worker as int, WorkerState::Executing),
        ensures
            final(self)@ == old(self)@.finish(worker as int),
            final(self).wf(),
    {
        let mut w = self.workers[worker];
        let _ = w.step(WorkerEvent::<J>::JobFinished);
        self.workers.set(worker, w);
        self.completed = Ghost(self.completed@ + 1);
        proof {
            lemma_finish_inv(old(self)@, worker as int);
        }
    }

    /// The waiting worker `worker` found the queue's lock poisoned: it stops
    /// and is not replaced.
    pub fn lock_poisoned(&mut self, worker: usize)
        requires
            old(self).wf(),
            old(self)@.worker_is(worker as int, WorkerState::Idle),
        ensures
            final(self)@ == old(self)@.poison(worker as int),
            final(self).wf(),
    {
        let mut w = self.workers[worker];
        let _ = w.step(WorkerEvent::<J>::LockPoisoned);
        self.workers.set(worker, w);
        proof {
            lemma_poison_inv(old(self)@, worker as int);
        }
    }

    /// How many workers the pool has. The number never changes.
    pub fn size(&self) -> (n: usize)
        ensures
            n == self@.workers.len(),
            self.wf() ==> n >= 1,
    {
        self.workers.len()
    }

    /// Whether the pool still takes jobs: true until teardown begins.
    pub fn is_accepting(&self) -> (b: bool)
        ensures
            b == self@.accepting,
    {
        !self.queue.is_closed()
    }

    /// How many messages wait in the queue.
    pub fn queued(&self) -> (n: usize)
        ensures
            n == self@.queue.len(),
    {
        self.queue.len()
    }

    /// The worker with ordinal `worker`, as it stands now.
    pub fn worker(&self, worker: usize) -> (w: Worker)
        requires
            worker < self@.workers.len(),
        ensures
            w == self@.workers[worker as int],
    {
        self.workers[worker]
    }

    /// Whether every worker has stopped.
    pub fn is_finished(&self) -> (b: bool)
        ensures
            b == forall|i: int|
                0 <= i < self@.workers.len() ==> (#[trigger] self@.workers[i]).state
                    == WorkerState::Terminated,
    {
        let mut i: usize = 0;
        while i < self.workers.len()
            invariant
                i <= self.workers@.len(),
                forall|k: int|
                    0 <= k < i ==> (#[trigger] self.workers@[k]).state == WorkerState::Terminated,
            decreases self.workers@.len() - i,
        {
            match self.workers[i].state {
                WorkerState::Terminated => {},
                _ => {
                    return false;
                },
            }
            i += 1;
        }
        true
    }
}

} // verus!
