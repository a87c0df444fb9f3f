//! What the pool guarantees, proved of the transition system: the invariant
//! holds of every reachable state, every job runs exactly once, teardown
//! never leaves a worker waiting, and submitting never depends on a worker.

use crate::message::Message;
use crate::model::{count, lemma_count_bounds, lemma_count_update, submissions, PoolView, Step};
use crate::worker::{Worker, WorkerEvent, WorkerState};
use vstd::prelude::*;

verus! {

/// A new pool of at least one worker satisfies the invariant.
pub proof fn lemma_init_inv<J>(n: nat)
    requires
        1 <= n <= usize::MAX,
    ensures
        PoolView::<J>::init(n).inv(),
{
    let s = PoolView::<J>::init(n);
    lemma_count_bounds(s.workers, |w: Worker| w.state == WorkerState::Executing);
    lemma_count_bounds(s.workers, |w: Worker| w.stopped_by_signal());
    assert(s.delivered =~= s.submitted.take(0));
}

/// Submitting a job keeps the invariant.
pub proof fn lemma_submit_inv<J>(s: PoolView<J>, job: J)
    requires
        s.inv(),
        s.accepting,
    ensures
        s.submit(job).inv(),
{
    let t = s.submit(job);
    let d = s.delivered.len() as int;
    assert(t.delivered =~= t.submitted.take(d));
    assert forall|i: int| 0 <= i < t.pending() implies #[trigger] t.queue[i] == Message::NewJob(
        t.submitted[d + i],
    ) by {
        if i < s.pending() {
            assert(t.queue[i] == s.queue[i]);
        }
    }
}

/// Beginning teardown keeps the invariant.
pub proof fn lemma_shut_down_inv<J>(s: PoolView<J>)
    requires
        s.inv(),
    ensures
        s.shut_down().inv(),
{
    let t = s.shut_down();
    if s.accepting {
        assert forall|i: int| 0 <= i < t.pending() implies #[trigger] t.queue[i]
            == Message::NewJob(t.submitted[t.delivered.len() + i]) by {
            assert(t.queue[i] == s.queue[i]);
        }
    }
}

/// A worker that asks the queue keeps the invariant, whatever it finds.
pub proof fn lemma_dispatch_inv<J>(s: PoolView<J>, i: int)
    requires
        s.inv(),
        s.worker_is(i, WorkerState::Idle),
    ensures
        s.dispatch(i).inv(),
{
    let t = s.dispatch(i);
    let d = s.delivered.len() as int;
    let w = s.workers[i].after(s.found());
    lemma_count_update(s.workers, i, w, |w: Worker| w.state == WorkerState::Executing);
    lemma_count_update(s.workers, i, w, |w: Worker| w.stopped_by_signal());
    assert(s.workers[i].wf());
    if s.queue.len() > 0 {
        match s.queue[0] {
            Message::NewJob(job) => {
                assert(s.pending() > 0);
                assert(job == s.submitted[d]);
                assert(t.delivered =~= t.submitted.take(d + 1));
                assert forall|k: int| 0 <= k < t.pending() implies #[trigger] t.queue[k]
                    == Message::NewJob(t.submitted[t.delivered.len() + k]) by {
                    assert(t.queue[k] == s.queue[k + 1]);
                }
                assert forall|k: int| t.pending() <= k < t.queue.len() implies #[trigger] t.queue[k]
                    is Terminate by {
                    assert(t.queue[k] == s.queue[k + 1]);
                }
            },
            Message::Terminate => {
                assert(s.pending() == 0);
                assert forall|k: int| t.pending() <= k < t.queue.len() implies #[trigger] t.queue[k]
                    is Terminate by {
                    assert(t.queue[k] == s.queue[k + 1]);
                }
            },
        }
    }
}

/// A message goes to one worker and no other: the worker that asks takes
/// the oldest message out of the queue, the messages behind it stay as they
/// are, and every other worker stays as it is.
pub proof fn lemma_dispatch_is_exclusive<J>(s: PoolView<J>, i: int)
    requires
        s.inv(),
        s.worker_is(i, WorkerState::Idle),
        s.queue.len() > 0,
    ensures
        s.dispatch(i).queue == s.queue.drop_first(),
        s.dispatch(i).workers.len() == s.workers.len(),
        forall|j: int|
            0 <= j < s.workers.len() && j != i ==> #[trigger] s.dispatch(i).workers[j]
                == s.workers[j],
        s.queue[0] is NewJob ==> s.dispatch(i).workers[i].state == WorkerState::Executing
            && s.dispatch(i).delivered == s.delivered.push(s.queue[0]->NewJob_0),
        s.queue[0] is Terminate ==> s.dispatch(i).workers[i].state == WorkerState::Terminated
            && s.dispatch(i).delivered == s.delivered,
{
}

/// A job that returns keeps the invariant.
pub proof fn lemma_finish_inv<J>(s: PoolView<J>, i: int)
    requires
        s.inv(),
        s.worker_is(i, WorkerState::Executing),
    ensures
        s.finish(i).inv(),
{
    let w = s.workers[i].after(WorkerEvent::<J>::JobFinished);
    lemma_count_update(s.workers, i, w, |w: Worker| w.state == WorkerState::Executing);
    lemma_count_update(s.workers, i, w, |w: Worker| w.stopped_by_signal());
    assert(s.workers[i].wf());
}

/// A worker that stops over a poisoned lock keeps the invariant.
pub proof fn lemma_poison_inv<J>(s: PoolView<J>, i: int)
    requires
        s.inv(),
        s.worker_is(i, WorkerState::Idle),
    ensures
        s.poison(i).inv(),
{
    let w = s.workers[i].after(WorkerEvent::<J>::LockPoisoned);
    lemma_count_update(s.workers, i, w, |w: Worker| w.state == WorkerState::Executing);
    lemma_count_update(s.workers, i, w, |w: Worker| w.stopped_by_signal());
    assert(s.workers[i].wf());
}

/// Every step that can happen keeps the invariant.
pub proof fn lemma_step_inv<J>(s: PoolView<J>, step: Step<J>)
    requires
        s.inv(),
        s.enabled(step),
    ensures
        s.next(step).inv(),
{
    match step {
        Step::Submit(job) => lemma_submit_inv(s, job),
        Step::ShutDown => lemma_shut_down_inv(s),
        Step::Dispatch(i) => lemma_dispatch_inv(s, i),
        Step::Finish(i) => lemma_finish_inv(s, i),
        Step::Poison(i) => lemma_poison_inv(s, i),
    }
}

/// The invariant holds after any sequence of steps from a state in which it
/// holds; in particular of every state that a new pool can reach.
pub proof fn lemma_run_inv<J>(s: PoolView<J>, steps: Seq<Step<J>>)
    requires
        s.inv(),
        s.admits(steps),
    ensures
        s.run(steps).inv(),
    decreases steps.len(),
{
    if steps.len() > 0 {
        lemma_run_inv(s, steps.drop_last());
        lemma_step_inv(s.run(steps.drop_last()), steps.last());
    }
}

/// No step adds or removes a worker, and none but a submission adds to the
/// jobs submitted: after any sequence of steps the pool has the workers it
/// was built with, and its history of submissions is the old one followed by
/// the jobs that the steps submitted.
pub proof fn lemma_run_history<J>(s: PoolView<J>, steps: Seq<Step<J>>)
    requires
        s.admits(steps),
    ensures
        s.run(steps).workers.len() == s.workers.len(),
        s.run(steps).submitted == s.submitted + submissions(steps),
    decreases steps.len(),
{
    if steps.len() > 0 {
        lemma_run_history(s, steps.drop_last());
        let mid = s.run(steps.drop_last());
        assert(mid.next(steps.last()).submitted =~= s.submitted + submissions(steps));
    } else {
        assert(s.submitted =~= s.submitted + submissions(steps));
    }
}

/// In a pool at rest every job that was ever submitted has been handed to
/// a worker exactly once, in submission order, and has returned.
pub proof fn lemma_quiet_pool_ran_every_job<J>(s: PoolView<J>)
    requires
        s.inv(),
        s.quiet(),
    ensures
        s.delivered == s.submitted,
        s.completed == s.submitted.len(),
{
    lemma_count_bounds(s.workers, |w: Worker| w.state == WorkerState::Executing);
    assert(s.delivered =~= s.submitted);
}

/// Once every worker has stopped on a `Terminate` the pool is at rest: no
/// message is left in the queue, and no job is running.
pub proof fn lemma_stopped_pool_is_quiet<J>(s: PoolView<J>)
    requires
        s.inv(),
        s.all_signalled(),
    ensures
        s.quiet(),
{
    lemma_count_bounds(s.workers, |w: Worker| w.stopped_by_signal());
    assert forall|i: int| 0 <= i < s.workers.len() implies (#[trigger] s.workers[i]).state
        != WorkerState::Executing by {
        assert(s.workers[i].stopped_by_signal());
        assert(s.workers[i].wf());
    }
}

/// For every number of workers and every run of a new pool, however the
/// steps of producers and workers interleave: if the run ends with the pool
/// at rest, then the jobs that have run to the end are exactly as many as
/// the run submitted, and they were handed out in the order of submission.
pub proof fn lemma_run_completes_all<J>(n: nat, steps: Seq<Step<J>>)
    requires
        1 <= n <= usize::MAX,
        PoolView::<J>::init(n).admits(steps),
        PoolView::<J>::init(n).run(steps).quiet(),
    ensures
        PoolView::<J>::init(n).run(steps).completed == submissions(steps).len(),
        PoolView::<J>::init(n).run(steps).delivered == submissions(steps),
{
    let s = PoolView::<J>::init(n);
    lemma_init_inv::<J>(n);
    lemma_run_inv(s, steps);
    lemma_run_history(s, steps);
    lemma_quiet_pool_ran_every_job(s.run(steps));
    assert(s.submitted + submissions(steps) =~= submissions(steps));
}

/// The same of a run that ends with every worker stopped on a `Terminate`,
/// as every run does that tears the pool down and lets the workers go on
/// until they stop.
pub proof fn lemma_torn_down_run_completes_all<J>(n: nat, steps: Seq<Step<J>>)
    requires
        1 <= n <= usize::MAX,
        PoolView::<J>::init(n).admits(steps),
        PoolView::<J>::init(n).run(steps).all_signalled(),
    ensures
        PoolView::<J>::init(n).run(steps).completed == submissions(steps).len(),
        PoolView::<J>::init(n).run(steps).delivered == submissions(steps),
        PoolView::<J>::init(n).run(steps).queue.len() == 0,
{
    let s = PoolView::<J>::init(n);
    lemma_init_inv::<J>(n);
    lemma_run_inv(s, steps);
    lemma_stopped_pool_is_quiet(s.run(steps));
    lemma_run_completes_all(n, steps);
}

/// After teardown has begun no worker ever waits: a worker that asks the
/// queue finds a message, a job or its `Terminate`.
pub proof fn lemma_shut_down_never_waits<J>(s: PoolView<J>, i: int)
    requires
        s.inv(),
        !s.accepting,
        s.worker_is(i, WorkerState::Idle),
    ensures
        s.queue.len() > 0,
        s.found() == WorkerEvent::Received(s.queue[0]),
{
    lemma_count_bounds(s.workers, |w: Worker| w.stopped_by_signal());
    assert(s.workers[i].wf());
    assert(!s.workers[i].stopped_by_signal());
}

/// Every step in which a worker takes a message or ends a job brings the
/// end nearer: the work that is left shrinks, and with it the number of such
/// steps that can still follow. After teardown has begun these are all the
/// steps a worker takes, so the workers come to their end.
pub proof fn lemma_progress<J>(s: PoolView<J>, step: Step<J>)
    requires
        s.inv(),
        s.enabled(step),
        step is Finish || (step is Dispatch && s.queue.len() > 0),
    ensures
        s.next(step).work_left() < s.work_left(),
{
    match step {
        Step::Dispatch(i) => {
            let w = s.workers[i].after(s.found());
            lemma_count_update(s.workers, i, w, |w: Worker| w.state == WorkerState::Executing);
        },
        Step::Finish(i) => {
            let w = s.workers[i].after(WorkerEvent::<J>::JobFinished);
            lemma_count_update(s.workers, i, w, |w: Worker| w.state == WorkerState::Executing);
        },
        _ => {},
    }
}

/// A pool without jobs that is torn down stops every worker in one step
/// each: whichever worker asks the queue finds a `Terminate`.
pub proof fn lemma_idle_pool_stops<J>(s: PoolView<J>, i: int)
    requires
        s.inv(),
        !s.accepting,
        s.pending() == 0,
        s.worker_is(i, WorkerState::Idle),
    ensures
        s.dispatch(i).workers[i].stopped_by_signal(),
        s.dispatch(i).queue.len() == s.queue.len() - 1,
{
    lemma_shut_down_never_waits(s, i);
}

/// Teardown signals each worker once: from a pool that takes jobs it queues
/// as many `Terminate` messages as there are workers, behind everything
/// queued before; a second teardown queues none.
pub proof fn lemma_shut_down_signals<J>(s: PoolView<J>)
    requires
        s.inv(),
    ensures
        s.accepting ==> s.shut_down().queue.len() == s.queue.len() + s.workers.len(),
        s.accepting ==> s.shut_down().queue.take(s.queue.len() as int) == s.queue,
        forall|k: int|
            s.queue.len() <= k < s.shut_down().queue.len() ==> #[trigger] s.shut_down().queue[k]
                is Terminate,
        s.shut_down().shut_down() == s.shut_down(),
{
    if s.accepting {
        assert(s.shut_down().queue.take(s.queue.len() as int) =~= s.queue);
    }
}

/// Whether a job can be submitted depends on no worker: a pool that takes
/// jobs takes them whatever its workers are doing, and nothing a worker does
/// stops it from taking more.
pub proof fn lemma_submit_independent<J>(s: PoolView<J>, step: Step<J>, job: J)
    requires
        s.accepting,
        step is Dispatch || step is Finish || step is Poison,
    ensures
        s.enabled(Step::Submit(job)),
        s.next(step).enabled(Step::Submit(job)),
        s.submit(job).workers == s.workers,
        s.submit(job).queue.last() == Message::NewJob(job),
{
}

} // verus!
