use vstd::prelude::*;
use std::collections::VecDeque;
use std::sync::{Condvar, Mutex};
use crate::sync::{guarded, lock, wait_for_work};
use crate::task::AsTask;

verus! {

/// A policy that orders submitted tasks and hands each to exactly one worker.
pub trait Scheduler: Send + Sync {
    /// Adds a task and wakes a worker that waits for one.
    fn schedule(&self, task: Box<dyn AsTask>);

    /// Blocks until a task is available and removes it, or returns `None` once termination
    /// was requested and no task is left.
    fn next_task(&self) -> Option<Box<dyn AsTask>>;

    /// Requests termination: wakes every waiting worker and cancels every task still queued.
    fn terminate(&self);
}

/// The tasks that wait for a worker, in the order they arrived, and whether the queue has
/// been closed to new work.
pub struct TaskQueue<J> {
    items: VecDeque<J>,
    closed: bool,
}

impl<J> View for TaskQueue<J> {
    type V = Seq<J>;

    closed spec fn view(&self) -> Seq<J> {
        self.items@
    }
}

/// The order in which repeated `take_next` calls hand out the contents `q` of a queue.
pub open spec fn drain_order<J>(q: Seq<J>) -> Seq<J>
    decreases q.len(),
{
    if q.len() == 0 {
        Seq::empty()
    } else {
        seq![q[0]] + drain_order(q.drop_first())
    }
}

/// The contents of a queue holding `q` after `xs` were pushed onto it one by one.
pub open spec fn pushed_all<J>(q: Seq<J>, xs: Seq<J>) -> Seq<J>
    decreases xs.len(),
{
    if xs.len() == 0 {
        q
    } else {
        pushed_all(q.push(xs[0]), xs.drop_first())
    }
}

impl<J> TaskQueue<J> {
    /// Whether the queue has been closed.
    pub closed spec fn is_closed(&self) -> bool {
        self.closed
    }

    /// Whether a worker asking for a task has to wait: nothing is queued and more may come.
    pub open spec fn spec_must_wait(&self) -> bool {
        self@.len() == 0 && !self.is_closed()
    }

    /// An open queue with nothing in it.
    pub fn new() -> (r: Self)
        ensures
            r@ == Seq::<J>::empty(),
            !r.is_closed(),
    {
        TaskQueue { items: VecDeque::new(), closed: false }
    }

    /// The number of queued tasks.
    pub fn len(&self) -> (r: usize)
        ensures
            r == self@.len(),
    {
        self.items.len()
    }

    /// Whether the queue has been closed.
    pub fn closed(&self) -> (r: bool)
        ensures
            r == self.is_closed(),
    {
        self.closed
    }

    #[verifier::when_used_as_spec(spec_must_wait)]
    pub fn must_wait(&self) -> (r: bool)
        ensures
            r == self.spec_must_wait(),
    {
        self.items.len() == 0 && !self.closed
    }

    /// Appends `job` behind every queued task, while the queue is open. A closed queue
    /// takes nothing: `job` is handed back.
    pub fn push(&mut self, job: J) -> (refused: Option<J>)
        ensures
            final(self).is_closed() == old(self).is_closed(),
            old(self).is_closed() ==> refused == Some(job) && final(self)@ == old(self)@,
            !old(self).is_closed() ==> refused is None && final(self)@ == old(self)@.push(job),
    {
        if self.closed {
            Some(job)
        } else {
            self.items.push_back(job);
            None
        }
    }

    /// Removes and returns the task that arrived first, if any.
    pub fn take_next(&mut self) -> (r: Option<J>)
        ensures
            final(self).is_closed() == old(self).is_closed(),
            old(self)@.len() == 0 ==> r is None && final(self)@ == old(self)@,
            old(self)@.len() > 0 ==> r == Some(old(self)@[0]) && final(self)@ == old(self)@.drop_first(),
    {
        self.items.pop_front()
    }

    /// Closes the queue and returns every task still in it, in arrival order.
    pub fn close(&mut self) -> (r: Vec<J>)
        ensures
            final(self).is_closed(),
            final(self)@ == Seq::<J>::empty(),
            r@ == old(self)@,
    {
        self.closed = true;
        let mut rest: Vec<J> = Vec::new();
        let ghost all = self.items@;
        while self.items.len() > 0
            invariant
                self.closed,
                rest@ + self.items@ == all,
            decreases self.items@.len(),
        {
            let next = self.items.pop_front();
            match next {
                Some(job) => {
                    rest.push(job);
                    proof {
                        assert(rest@ + self.items@ =~= all);
                    }
                },
                None => {},
            }
        }
        proof {
            assert(rest@ =~= all);
        }
        rest
    }
}

/// Draining a queue hands out exactly its contents, first to last.
pub proof fn lemma_drain_order<J>(q: Seq<J>)
    ensures
        drain_order(q) == q,
    decreases q.len(),
{
    if q.len() > 0 {
        lemma_drain_order(q.drop_first());
        assert(seq![q[0]] + q.drop_first() =~= q);
    }
}

/// First in, first out: when tasks `xs` are scheduled one after another onto a queue that
/// holds `q`, workers receive everything that was queued before them, then `xs` in the order
/// they were scheduled.
pub proof fn lemma_fifo_order<J>(q: Seq<J>, xs: Seq<J>)
    ensures
        pushed_all(q, xs) == q + xs,
        drain_order(pushed_all(q, xs)) == q + xs,
    decreases xs.len(),
{
    if xs.len() > 0 {
        lemma_fifo_order(q.push(xs[0]), xs.drop_first());
        assert(q.push(xs[0]) + xs.drop_first() =~= q + xs);
    }
    lemma_drain_order(q + xs);
}

/// Termination never strands a worker: a queue left as `close` leaves it, closed and empty,
/// makes no worker wait and hands none of them a task.
pub proof fn lemma_closed_releases<J>(queue: TaskQueue<J>)
    requires
        queue.is_closed(),
        queue@.len() == 0,
    ensures
        !queue.spec_must_wait(),
        drain_order(queue@) == Seq::<J>::empty(),
{
}

/// The first-come, first-served scheduler: one lock around the queue, and a condition
/// variable on which idle workers sleep.
pub struct FifoScheduler {
    queue: Mutex<TaskQueue<Box<dyn AsTask>>>,
    available: Condvar,
}

impl FifoScheduler {
    pub fn new() -> (r: Self) {
        FifoScheduler { queue: Mutex::new(TaskQueue::new()), available: Condvar::new() }
    }
}

impl Scheduler for FifoScheduler {
    fn schedule(&self, task: Box<dyn AsTask>) {
        let refused = {
            let mut g = lock(&self.queue);
            let queue = guarded(&mut g);
            let refused = queue.push(task);
            if queue.len() > 1 {
                self.available.notify_all();
            } else {
                self.available.notify_one();
            }
            refused
        };
        if let Some(late) = refused {
            late.cancel();
        }
    }

    fn next_task(&self) -> Option<Box<dyn AsTask>> {
        let g = lock(&self.queue);
        let mut g = wait_for_work(&self.available, g);
        guarded(&mut g).take_next()
    }

    fn terminate(&self) {
        let rest = {
            let mut g = lock(&self.queue);
            guarded(&mut g).close()
        };
        self.available.notify_all();
        let mut i: usize = 0;
        while i < rest.len()
            decreases rest.len() - i,
        {
            rest[i].cancel();
            i = i + 1;
        }
    }
}

} // verus!
