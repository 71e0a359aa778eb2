//! Walking through a queue in batches.

use vstd::prelude::*;
use vstd::string::StringExecFns;
use crate::resque::command::{Command, range};

verus! {

/// The jobs of `batch`, last first.
pub fn reversed(batch: Vec<String>) -> (turned: Vec<String>)
    ensures
        turned@ == batch@.reverse(),
{
    let mut rest = batch;
    let mut turned: Vec<String> = Vec::new();
    while rest.len() > 0
        invariant
            rest@ == batch@.take(rest@.len() as int),
            turned@.len() + rest@.len() == batch@.len(),
            forall|i: int| 0 <= i < turned@.len() ==> turned@[i] == batch@[batch@.len() - 1 - i],
        decreases rest@.len(),
    {
        let ghost shorter = rest@.len() - 1;
        match rest.pop() {
            Some(job) => {
                turned.push(job);
            },
            None => {},
        }
        assert(rest@ =~= batch@.take(shorter));
    }
    assert(turned@ =~= batch@.reverse());
    turned
}

/// `f` can take `job` and return without an error.
pub open spec fn accepted<E, F: Fn(String) -> Result<bool, E>>(f: F, job: String) -> bool {
    exists|kept: bool| call_ensures(f, (job,), Ok::<bool, E>(kept))
}

/// A whole walk over a queue that stays as it is, from the batch that starts
/// at `start` on: the jobs that are handed out, in the order in which they
/// are. Each batch is the range of `stride` jobs from the start, the next one
/// starts behind it, and the walk is over once `total` jobs were fetched or a
/// batch comes back empty.
pub open spec fn walked(queue: Seq<String>, stride: int, total: int, start: int) -> Seq<String>
    decreases
            if start < total {
                total - start
            } else {
                0
            },
{
    let batch = range(queue, start, start + stride - 1);
    if start >= total || batch.len() == 0 {
        Seq::empty()
    } else {
        batch + walked(queue, stride, total, start + batch.len())
    }
}

/// A walk over a queue that stays as it is hands out every job from the start
/// on exactly once, in the order of the queue, whatever the size of a batch.
pub proof fn walk_hands_out_every_job(queue: Seq<String>, stride: int, start: int)
    requires
        stride >= 1,
        0 <= start <= queue.len(),
    ensures
        walked(queue, stride, queue.len() as int, start) == queue.skip(start),
    decreases queue.len() - start,
{
    let batch = range(queue, start, start + stride - 1);
    if start < queue.len() {
        walk_hands_out_every_job(queue, stride, start + batch.len());
        assert(batch + queue.skip(start + batch.len()) =~= queue.skip(start));
    } else {
        assert(queue.skip(start) =~= Seq::<String>::empty());
    }
}

/// What a walk does next.
#[derive(Debug, PartialEq, Eq)]
pub enum IterStep {
    /// The next job of the queue.
    Item(String),
    /// The batch is used up: send this command and hand the reply to
    /// `refill`.
    Fetch(Command),
    /// The walk is over.
    Done,
}

/// A walk through a queue that holds one batch of jobs at a time. Each batch
/// starts behind the last job of the one before, so that a queue which stays
/// as it is has every job handed out once, in the order of the queue.
///
/// The batch is kept with its last job first, so that the next job to hand
/// out is the one at the end.
pub struct Iter {
    batch: Vec<String>,
    queue: String,
    total: isize,
    batch_size: isize,
    start: isize,
}

impl Iter {
    /// The jobs of the current batch that are still to be handed out, the
    /// next one first.
    pub closed spec fn buffered(&self) -> Seq<String> {
        self.batch@.reverse()
    }

    /// The queue that is walked.
    pub closed spec fn queue(&self) -> Seq<char> {
        self.queue@
    }

    /// The length the queue had when the walk began.
    pub closed spec fn total(&self) -> int {
        self.total as int
    }

    /// The number of jobs asked for at a time.
    pub closed spec fn stride(&self) -> int {
        self.batch_size as int
    }

    /// The index at which the next batch starts: the number of jobs fetched
    /// so far.
    pub closed spec fn start(&self) -> int {
        self.start as int
    }

    /// Begins a walk through `queue` from its length `total` and the number
    /// of jobs to a batch. A batch holds at least one job: a smaller size
    /// counts as one.
    pub fn load(queue: &str, batch_size: isize, total: isize) -> (iter: Iter)
        ensures
            iter.buffered() =~= Seq::<String>::empty(),
            iter.queue() == queue@,
            iter.total() == total,
            iter.stride() == (if batch_size < 1 {
                1
            } else {
                batch_size as int
            }),
            iter.start() == 0,
    {
        Iter {
            batch: Vec::new(),
            queue: String::from_str(queue),
            total,
            batch_size: if batch_size < 1 {
                1
            } else {
                batch_size
            },
            start: 0,
        }
    }

    /// Whether the last index of the next batch can be computed.
    pub fn can_fetch(&self) -> (room: bool)
        ensures
            room == (isize::MIN <= self.start() + self.stride() - 1 <= isize::MAX),
    {
        let last: i128 = self.start as i128 + self.batch_size as i128 - 1;
        isize::MIN as i128 <= last && last <= isize::MAX as i128
    }

    /// Hands out the next buffered job. With none buffered, the walk is over
    /// once as many jobs were fetched as the queue held at the beginning, and
    /// asks for the next batch otherwise: `stride` jobs from `start` on.
    pub fn next(&mut self) -> (step: IterStep)
        requires
            old(self).buffered().len() == 0 && old(self).start() < old(self).total() ==> isize::MIN
                <= old(self).start() + old(self).stride() - 1 <= isize::MAX,
        ensures
            final(self).queue() == old(self).queue(),
            final(self).total() == old(self).total(),
            final(self).stride() == old(self).stride(),
            final(self).start() == old(self).start(),
            if old(self).buffered().len() > 0 {
                &&& step == IterStep::Item(old(self).buffered()[0])
                &&& final(self).buffered() == old(self).buffered().skip(1)
            } else {
                &&& final(self).buffered() == old(self).buffered()
                &&& if old(self).start() >= old(self).total() {
                    step == IterStep::Done
                } else {
                    step matches IterStep::Fetch(Command::Lrange { key, start, stop }) && key@
                        == old(self).queue() && start == old(self).start() && stop == old(
                        self,
                    ).start() + old(self).stride() - 1
                }
            },
    {
        let ghost before = self.batch@;
        match self.batch.pop() {
            Some(job) => {
                assert(self.batch@.reverse() =~= before.reverse().skip(1));
                IterStep::Item(job)
            },
            None => {
                if self.start >= self.total {
                    IterStep::Done
                } else {
                    let last: i128 = self.start as i128 + self.batch_size as i128 - 1;
                    IterStep::Fetch(
                        Command::Lrange {
                            key: self.queue.clone(),
                            start: self.start,
                            stop: last as isize,
                        },
                    )
                }
            },
        }
    }

    /// Hands every buffered job to `f`, the next one first, and stops at the
    /// first job for which `f` reports an error. The jobs handed out leave
    /// the buffer, the one that `f` failed on too.
    pub fn each<E, F: Fn(String) -> Result<bool, E>>(&mut self, f: F) -> (done: Result<bool, E>)
        requires
            forall|job: String| call_requires(f, (job,)),
        ensures
            final(self).queue() == old(self).queue(),
            final(self).total() == old(self).total(),
            final(self).stride() == old(self).stride(),
            final(self).start() == old(self).start(),
            match done {
                Ok(all) => {
                    &&& all
                    &&& final(self).buffered().len() == 0
                    &&& forall|i: int|
                        0 <= i < old(self).buffered().len() ==> accepted::<E, F>(
                            f,
                            #[trigger] old(self).buffered()[i],
                        )
                },
                Err(error) => exists|at: int|
                    {
                        &&& 0 <= at < old(self).buffered().len()
                        &&& call_ensures(f, (#[trigger] old(self).buffered()[at],), Err::<bool, E>(error))
                        &&& final(self).buffered() == old(self).buffered().skip(at + 1)
                        &&& forall|i: int|
                            0 <= i < at ==> accepted::<E, F>(f, #[trigger] old(self).buffered()[i])
                    },
            },
    {
        let ghost jobs = self.batch@.reverse();
        let ghost mut handed: int = 0;
        assert(jobs.skip(0) =~= jobs);
        while self.batch.len() > 0
            invariant
                forall|job: String| call_requires(f, (job,)),
                jobs == old(self).buffered(),
                self.queue == old(self).queue,
                self.total == old(self).total,
                self.batch_size == old(self).batch_size,
                self.start == old(self).start,
                0 <= handed <= jobs.len(),
                self.batch@.reverse() == jobs.skip(handed),
                forall|i: int| 0 <= i < handed ==> accepted::<E, F>(f, #[trigger] jobs[i]),
            decreases self.batch@.len(),
        {
            let ghost before = self.batch@;
            match self.batch.pop() {
                Some(job) => {
                    assert(before.reverse().len() == before.len());
                    assert(handed < jobs.len());
                    assert(before.reverse()[0] == job);
                    assert(jobs.skip(handed)[0] == jobs[handed]);
                    assert(self.batch@.reverse() =~= before.reverse().skip(1));
                    assert(jobs.skip(handed).skip(1) =~= jobs.skip(handed + 1));
                    match f(job) {
                        Ok(kept) => {
                            assert(call_ensures(f, (jobs[handed],), Ok::<bool, E>(kept)));
                            proof {
                                handed = handed + 1;
                            }
                        },
                        Err(error) => {
                            assert(call_ensures(f, (jobs[handed],), Err::<bool, E>(error)));
                            return Err(error);
                        },
                    }
                },
                None => {},
            }
        }
        assert(jobs.skip(handed).len() == 0);
        Ok(true)
    }

    /// Whether a batch of `length` jobs can still be counted.
    pub fn has_room(&self, length: usize) -> (room: bool)
        ensures
            room == (self.start() + length <= isize::MAX),
    {
        self.start as i128 + length as i128 <= isize::MAX as i128
    }

    /// Takes the reply to a fetch: the batch, or nothing when the fetch
    /// failed. A batch with jobs in it is buffered and moves the start of the
    /// next batch behind it; the result says that the walk goes on. A failed
    /// fetch or an empty batch changes nothing, and the walk is over.
    pub fn refill(&mut self, reply: Option<Vec<String>>) -> (more: bool)
        requires
            reply matches Some(batch) ==> old(self).start() + batch@.len() <= isize::MAX,
        ensures
            final(self).queue() == old(self).queue(),
            final(self).total() == old(self).total(),
            final(self).stride() == old(self).stride(),
            match reply {
                Some(batch) if batch@.len() > 0 => {
                    &&& more
                    &&& final(self).buffered() == batch@
                    &&& final(self).start() == old(self).start() + batch@.len()
                },
                _ => {
                    &&& !more
                    &&& final(self).buffered() == old(self).buffered()
                    &&& final(self).start() == old(self).start()
                },
            },
    {
        match reply {
            Some(batch) => {
                if batch.len() == 0 {
                    false
                } else {
                    let ghost fetched = batch@;
                    let count: usize = batch.len();
                    let batch = reversed(batch);
                    assert(batch@.reverse() =~= fetched);
                    self.start = (self.start as i128 + count as i128) as isize;
                    self.batch = batch;
                    true
                }
            },
            None => false,
        }
    }
}

} // verus!
