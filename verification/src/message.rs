//! What travels through the job queue.

use vstd::prelude::*;

verus! {

/// One entry of the job queue: either work for a worker, or the instruction
/// to stop. A worker that takes `Terminate` stops at once and looks at
/// nothing behind it.
pub enum Message<J> {
    /// A job for whichever worker takes it.
    NewJob(J),
    /// Tells the worker that takes it to stop.
    Terminate,
}

} // verus!
