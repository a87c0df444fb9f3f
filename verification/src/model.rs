//! The pool as a transition system. A state records the workers, the queue,
//! and the history of the jobs: which were submitted, which were handed to a
//! worker, how many have returned. The steps are the five things that can
//! happen to a pool. The invariant `inv` holds of every state that the steps
//! reach from a new pool, and the guarantees of the pool follow from it.
//!
//! A job that never returns, because it loops or because it takes its thread
//! down with it, takes no step: its worker stays in `Executing` and is not
//! replaced.

use crate::message::Message;
use crate::worker::{Worker, WorkerEvent, WorkerState};
use vstd::prelude::*;

verus! {

/// How many of `ws` satisfy `p`.
pub open spec fn count(ws: Seq<Worker>, p: spec_fn(Worker) -> bool) -> nat
    decreases ws.len(),
{
    if ws.len() == 0 {
        0
    } else {
        count(ws.drop_last(), p) + if p(ws.last()) {
            1nat
        } else {
            0nat
        }
    }
}

/// A count is at most the length; it reaches the length only if every
/// worker satisfies `p`, and is zero only if none does.
pub proof fn lemma_count_bounds(ws: Seq<Worker>, p: spec_fn(Worker) -> bool)
    ensures
        count(ws, p) <= ws.len(),
        count(ws, p) == ws.len() <==> forall|i: int| 0 <= i < ws.len() ==> p(#[trigger] ws[i]),
        count(ws, p) == 0 <==> forall|i: int| 0 <= i < ws.len() ==> !p(#[trigger] ws[i]),
    decreases ws.len(),
{
    if ws.len() > 0 {
        let front = ws.drop_last();
        lemma_count_bounds(front, p);
        assert forall|i: int| 0 <= i < front.len() implies front[i] == ws[i] by {}
        if count(ws, p) == ws.len() {
            assert forall|i: int| 0 <= i < ws.len() implies p(#[trigger] ws[i]) by {
                if i < front.len() {
                    assert(p(front[i]));
                }
            }
        }
        if count(ws, p) == 0 {
            assert forall|i: int| 0 <= i < ws.len() implies !p(#[trigger] ws[i]) by {
                if i < front.len() {
                    assert(!p(front[i]));
                }
            }
        }
        if forall|i: int| 0 <= i < ws.len() ==> p(#[trigger] ws[i]) {
            assert(p(ws[ws.len() - 1]));
            assert forall|i: int| 0 <= i < front.len() implies p(#[trigger] front[i]) by {
                assert(p(ws[i]));
            }
        }
        if forall|i: int| 0 <= i < ws.len() ==> !p(#[trigger] ws[i]) {
            assert(!p(ws[ws.len() - 1]));
            assert forall|i: int| 0 <= i < front.len() implies !p(#[trigger] front[i]) by {
                assert(!p(ws[i]));
            }
        }
    }
}

/// Replacing one worker changes a count by what the old worker took from it
/// and the new one adds to it.
pub proof fn lemma_count_update(ws: Seq<Worker>, i: int, w: Worker, p: spec_fn(Worker) -> bool)
    requires
        0 <= i < ws.len(),
    ensures
        count(ws.update(i, w), p) + (if p(ws[i]) {
            1nat
        } else {
            0nat
        }) == count(ws, p) + (if p(w) {
            1nat
        } else {
            0nat
        }),
    decreases ws.len(),
{
    let after = ws.update(i, w);
    if i == ws.len() - 1 {
        assert(after.drop_last() =~= ws.drop_last());
    } else {
        lemma_count_update(ws.drop_last(), i, w, p);
        assert(after.drop_last() =~= ws.drop_last().update(i, w));
    }
}

/// The state of a pool.
pub struct PoolView<J> {
    /// The workers, in creation order.
    pub workers: Seq<Worker>,
    /// What is queued, oldest first.
    pub queue: Seq<Message<J>>,
    /// Whether the pool still takes jobs.
    pub accepting: bool,
    /// Every job ever submitted, in submission order.
    pub submitted: Seq<J>,
    /// Every job ever handed to a worker, in the order of handing out.
    pub delivered: Seq<J>,
    /// How many jobs have returned.
    pub completed: nat,
}

/// One thing that happens to a pool.
pub enum Step<J> {
    /// A producer submits a job.
    Submit(J),
    /// The owner tears the pool down.
    ShutDown,
    /// The worker with this ordinal asks the queue for a message.
    Dispatch(int),
    /// The job that the worker with this ordinal was running returns.
    Finish(int),
    /// The worker with this ordinal finds the queue's lock poisoned.
    Poison(int),
}

impl<J> PoolView<J> {
    /// A new pool of `n` waiting workers, with nothing queued.
    pub open spec fn init(n: nat) -> Self {
        PoolView {
            workers: Seq::new(
                n,
                |i: int| Worker { id: i as usize, state: WorkerState::Idle, stopped: None },
            ),
            queue: Seq::empty(),
            accepting: true,
            submitted: Seq::empty(),
            delivered: Seq::empty(),
            completed: 0,
        }
    }

    /// How many submitted jobs no worker has taken yet.
    pub open spec fn pending(self) -> int {
        self.submitted.len() - self.delivered.len()
    }

    /// How many workers are running a job.
    pub open spec fn executing(self) -> nat {
        count(self.workers, |w: Worker| w.state == WorkerState::Executing)
    }

    /// How many workers have stopped because they took a `Terminate`.
    pub open spec fn signalled(self) -> nat {
        count(self.workers, |w: Worker| w.stopped_by_signal())
    }

    /// Whether `i` is the ordinal of a worker in state `state`.
    pub open spec fn worker_is(self, i: int, state: WorkerState) -> bool {
        0 <= i < self.workers.len() && self.workers[i].state == state
    }

    /// What holds of every pool.
    ///
    /// The workers are at least one, each at its ordinal. The jobs handed out
    /// are the first of the jobs submitted, in the same order; the rest are
    /// queued, in the same order, and behind them stand only `Terminate`
    /// messages. Every job handed out has returned or is running. While the
    /// pool takes jobs no `Terminate` exists; afterwards there is one for
    /// every worker, queued or taken; and none is taken before the last job.
    pub open spec fn inv(self) -> bool {
        &&& self.workers.len() >= 1
        &&& forall|i: int|
            0 <= i < self.workers.len() ==> (#[trigger] self.workers[i]).id == i
                && self.workers[i].wf()
        &&& self.delivered.len() <= self.submitted.len()
        &&& self.delivered == self.submitted.take(self.delivered.len() as int)
        &&& self.pending() <= self.queue.len()
        &&& forall|i: int|
            0 <= i < self.pending() ==> #[trigger] self.queue[i] == Message::NewJob(
                self.submitted[self.delivered.len() + i],
            )
        &&& forall|i: int|
            self.pending() <= i < self.queue.len() ==> #[trigger] self.queue[i] is Terminate
        &&& self.delivered.len() == self.completed + self.executing()
        &&& self.accepting ==> self.queue.len() == self.pending() && self.signalled() == 0
        &&& !self.accepting ==> self.queue.len() - self.pending() + self.signalled()
            == self.workers.len()
        &&& self.signalled() > 0 ==> self.pending() == 0
    }

    /// The pool after `job` was submitted: the job stands at the tail of the
    /// queue.
    pub open spec fn submit(self, job: J) -> Self {
        PoolView {
            queue: self.queue.push(Message::NewJob(job)),
            submitted: self.submitted.push(job),
            ..self
        }
    }

    /// The pool after teardown began: one `Terminate` for every worker stands
    /// behind what was queued, and no job is taken any more. On a pool that
    /// was torn down before, nothing changes.
    pub open spec fn shut_down(self) -> Self {
        if self.accepting {
            PoolView {
                queue: self.queue + Seq::new(self.workers.len(), |i: int| Message::Terminate),
                accepting: false,
                ..self
            }
        } else {
            self
        }
    }

    /// What a worker finds that asks the queue now.
    pub open spec fn found(self) -> WorkerEvent<J> {
        if self.queue.len() > 0 {
            WorkerEvent::Received(self.queue[0])
        } else if self.accepting {
            WorkerEvent::QueueEmpty
        } else {
            WorkerEvent::Disconnected
        }
    }

    /// The pool after worker `i` asked the queue: the oldest message, if
    /// there is one, has left the queue and has reached that worker alone.
    pub open spec fn dispatch(self, i: int) -> Self {
        PoolView {
            workers: self.workers.update(i, self.workers[i].after(self.found())),
            queue: if self.queue.len() > 0 {
                self.queue.drop_first()
            } else {
                self.queue
            },
            delivered: match self.found() {
                WorkerEvent::Received(Message::NewJob(job)) => self.delivered.push(job),
                _ => self.delivered,
            },
            ..self
        }
    }

    /// The pool after the job of worker `i` returned.
    pub open spec fn finish(self, i: int) -> Self {
        PoolView {
            workers: self.workers.update(i, self.workers[i].after(WorkerEvent::<J>::JobFinished)),
            completed: self.completed + 1,
            ..self
        }
    }

    /// The pool after worker `i` found the lock poisoned.
    pub open spec fn poison(self, i: int) -> Self {
        PoolView {
            workers: self.workers.update(i, self.workers[i].after(WorkerEvent::<J>::LockPoisoned)),
            ..self
        }
    }

    /// Whether `step` can happen in this state.
    pub open spec fn enabled(self, step: Step<J>) -> bool {
        match step {
            Step::Submit(_) => self.accepting,
            Step::ShutDown => true,
            Step::Dispatch(i) => self.worker_is(i, WorkerState::Idle),
            Step::Finish(i) => self.worker_is(i, WorkerState::Executing),
            Step::Poison(i) => self.worker_is(i, WorkerState::Idle),
        }
    }

    /// The state after `step`.
    pub open spec fn next(self, step: Step<J>) -> Self {
        match step {
            Step::Submit(job) => self.submit(job),
            Step::ShutDown => self.shut_down(),
            Step::Dispatch(i) => self.dispatch(i),
            Step::Finish(i) => self.finish(i),
            Step::Poison(i) => self.poison(i),
        }
    }

    /// The state after all of `steps`, in order.
    pub open spec fn run(self, steps: Seq<Step<J>>) -> Self
        decreases steps.len(),
    {
        if steps.len() == 0 {
            self
        } else {
            self.run(steps.drop_last()).next(steps.last())
        }
    }

    /// Whether each of `steps` can happen where the ones before it lead.
    pub open spec fn admits(self, steps: Seq<Step<J>>) -> bool
        decreases steps.len(),
    {
        steps.len() > 0 ==> self.admits(steps.drop_last()) && self.run(
            steps.drop_last(),
        ).enabled(steps.last())
    }

    /// Whether every worker has stopped because it took a `Terminate`.
    pub open spec fn all_signalled(self) -> bool {
        forall|i: int| 0 <= i < self.workers.len() ==> (#[trigger] self.workers[i]).stopped_by_signal()
    }

    /// Whether the pool is at rest: nothing is queued and no job is running.
    pub open spec fn quiet(self) -> bool {
        &&& self.queue.len() == 0
        &&& forall|i: int|
            0 <= i < self.workers.len() ==> (#[trigger] self.workers[i]).state
                != WorkerState::Executing
    }

    /// What is still to do: every queued message has to be taken, every job
    /// taken has to return.
    pub open spec fn work_left(self) -> nat {
        2 * self.queue.len() + self.executing()
    }
}

/// The jobs that `steps` submit, in order.
pub open spec fn submissions<J>(steps: Seq<Step<J>>) -> Seq<J>
    decreases steps.len(),
{
    if steps.len() == 0 {
        Seq::empty()
    } else {
        match steps.last() {
            Step::Submit(job) => submissions(steps.drop_last()).push(job),
            _ => submissions(steps.drop_last()),
        }
    }
}

} // verus!
