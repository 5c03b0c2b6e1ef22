use vstd::prelude::*;
use crate::scheduler::{FifoScheduler, Scheduler};
use crate::task::{Task, TaskHandle, ToTask};

verus! {

/// The largest number of workers a pool can have.
pub const MAX_POOL_SIZE: usize = 128;

/// The number of workers of a pool whose size is not given.
pub const DEFAULT_POOL_SIZE: usize = 4;

/// The settings of a pool before it is built: the number of workers and, where one was
/// chosen, the scheduler.
pub struct ThreadPoolBuilder {
    size: usize,
    scheduler: Option<Box<dyn Scheduler>>,
}

impl ThreadPoolBuilder {
    /// The number of workers asked for.
    pub closed spec fn spec_size(&self) -> usize {
        self.size
    }

    /// The scheduler chosen, if any.
    pub closed spec fn chosen(&self) -> Option<Box<dyn Scheduler>> {
        self.scheduler
    }

    /// Settings for `DEFAULT_POOL_SIZE` workers and the default scheduler.
    pub fn new() -> (r: Self)
        ensures
            r.spec_size() == DEFAULT_POOL_SIZE,
            r.chosen() is None,
    {
        ThreadPoolBuilder { size: DEFAULT_POOL_SIZE, scheduler: None }
    }

    /// The same settings with `size` workers.
    pub fn num_threads(self, size: usize) -> (r: Self)
        ensures
            r.spec_size() == size,
            r.chosen() == self.chosen(),
    {
        ThreadPoolBuilder { size, ..self }
    }

    /// The same settings with `scheduler` in place of any chosen before.
    pub fn scheduler<S: Scheduler + 'static>(self, scheduler: S) -> (r: Self)
        ensures
            r.spec_size() == self.spec_size(),
            r.chosen() is Some,
    {
        let shared: Box<dyn Scheduler> = Box::new(scheduler);
        ThreadPoolBuilder { scheduler: Some(shared), ..self }
    }

    /// The number of workers asked for.
    pub fn size(&self) -> (r: usize)
        ensures
            r == self.spec_size(),
    {
        self.size
    }

    /// Checks the settings and completes them: the number of workers and the scheduler,
    /// a first-come, first-served one where none was chosen. A size above `MAX_POOL_SIZE` is
    /// refused, not clamped.
    pub fn settings(self) -> (r: Result<(usize, Box<dyn Scheduler>), ()>)
        ensures
            r is Err <==> self.spec_size() > MAX_POOL_SIZE,
            r matches Ok(s) ==> s.0 == self.spec_size(),
    {
        if self.size > MAX_POOL_SIZE {
            return Err(());
        }
        let scheduler: Box<dyn Scheduler> = match self.scheduler {
            Some(s) => s,
            None => Box::new(FifoScheduler::new()),
        };
        Ok((self.size, scheduler))
    }
}

/// Submits `work` to `scheduler` and returns its handle. The handle shares the task's state
/// before the task is queued, so a worker cannot run it unobserved.
pub fn submit<T, F, W>(scheduler: &dyn Scheduler, work: W) -> (r: TaskHandle<T>)
    where
        T: Send + 'static,
        F: FnOnce() -> T + Send + 'static,
        W: ToTask<T, F>,
    requires
        work.can_start(),
{
    let (sender, receiver) = std::sync::mpsc::channel();
    let mut task = Task::new(work);
    task.bind(sender);
    let handle = TaskHandle::new(&task, receiver);
    scheduler.schedule(Box::new(task));
    handle
}

} // verus!
