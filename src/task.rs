use vstd::prelude::*;
use std::sync::atomic::{AtomicBool, AtomicU8, Ordering};
use std::sync::mpsc::{Receiver, Sender};
use std::sync::{Arc, Mutex};
use crate::error::Error;
use crate::state::{TaskState, CANCELLED, COMPLETED, PENDING, RUNNING};
use crate::sync::{guarded, lock, recv, send};

verus! {

/// A unit of work as a scheduler sees it: it can be run once, or cancelled in place.
pub trait AsTask: Send {
    /// Runs the work, unless cancellation was requested first, and delivers the outcome.
    fn run(self: Box<Self>);

    /// Marks the task cancelled and delivers `Cancelled` without running the work.
    fn cancel(&self);
}

/// A value that can become a task.
pub trait ToTask<T, F: FnOnce() -> T> {
    /// Whether the work can be started as it stands.
    spec fn can_start(&self) -> bool;

    fn to_task(self) -> (r: Option<Task<T, F>>)
        requires
            self.can_start(),
        ensures
            r is Some,
    ;
}

/// The work of a task together with the cells it shares with its handle.
#[verifier::reject_recursive_types(T)]
pub struct Task<T, F: FnOnce() -> T> {
    pub(crate) cancel_flag: Arc<AtomicBool>,
    pub(crate) state: Arc<AtomicU8>,
    work: F,
    pub(crate) result_sender: Option<Sender<Result<T, Error>>>,
}

/// The caller's side of a task: observes its state, waits for its result, cancels it.
#[verifier::reject_recursive_types(T)]
pub struct TaskHandle<T> {
    state: Arc<AtomicU8>,
    result_receiver: Mutex<Receiver<Result<T, Error>>>,
    cancel_flag: Arc<AtomicBool>,
    waited: AtomicBool,
}

impl<T, F: FnOnce() -> T> Task<T, F> {
    /// The work can always be started.
    #[verifier::type_invariant]
    spec fn startable(&self) -> bool {
        self.work.requires(())
    }

    /// Whether the task has a channel to deliver its outcome on.
    pub closed spec fn is_bound(&self) -> bool {
        self.result_sender is Some
    }

    /// A pending task with no result channel yet.
    pub fn from_work(work: F) -> (r: Self)
        requires
            work.requires(()),
        ensures
            !r.is_bound(),
    {
        Task {
            cancel_flag: Arc::new(AtomicBool::new(false)),
            state: Arc::new(AtomicU8::new(PENDING)),
            work,
            result_sender: None,
        }
    }

    pub(crate) fn new<W: ToTask<T, F>>(work: W) -> (r: Self)
        requires
            work.can_start(),
    {
        work.to_task().unwrap()
    }

    /// Gives the task the channel on which it delivers its outcome.
    pub(crate) fn bind(&mut self, result_sender: Sender<Result<T, Error>>)
        ensures
            final(self).is_bound(),
    {
        proof { use_type_invariant(&*self); }
        self.result_sender = Some(result_sender);
    }

    /// Stores `new_state` in the cell that the task shares with its handle.
    pub(crate) fn transition_state(&self, new_state: TaskState) {
        self.state.store(new_state.code(), Ordering::Release);
    }
}

impl<T, F: FnOnce() -> T> ToTask<T, F> for F {
    open spec fn can_start(&self) -> bool {
        self.requires(())
    }

    fn to_task(self) -> (r: Option<Task<T, F>>) {
        Some(Task::from_work(self))
    }
}

impl<T, F: FnOnce() -> T> ToTask<T, F> for Task<T, F> {
    open spec fn can_start(&self) -> bool {
        true
    }

    fn to_task(self) -> (r: Option<Task<T, F>>) {
        Some(self)
    }
}

/// Whether a worker that has dequeued a task may begin its work: only if nobody asked for
/// cancellation and the worker is the one that moved the task out of `Pending`.
pub fn may_begin(cancel_requested: bool, claimed: bool) -> (r: bool)
    ensures
        r == (!cancel_requested && claimed),
{
    !cancel_requested && claimed
}

impl<T: Send, F: FnOnce() -> T + Send> AsTask for Task<T, F> {
    fn run(self: Box<Self>) {
        let task = *self;
        proof { use_type_invariant(&task); }
        let Task { cancel_flag, state, work, result_sender } = task;
        let requested = cancel_flag.load(Ordering::Acquire);
        let claimed = !requested && state.compare_exchange(
            PENDING,
            RUNNING,
            Ordering::AcqRel,
            Ordering::Acquire,
        ).is_ok();
        if may_begin(requested, claimed) {
            let value = work();
            state.store(COMPLETED, Ordering::Release);
            if let Some(tx) = &result_sender {
                send(tx, Ok(value));
            }
        } else if let Some(tx) = &result_sender {
            send(tx, Err(Error::Cancelled));
        }
    }

    fn cancel(&self) {
        self.cancel_flag.store(true, Ordering::Release);
        self.transition_state(TaskState::Cancelled);
        if let Some(tx) = &self.result_sender {
            send(tx, Err(Error::Cancelled));
        }
    }
}

/// What `cancel` answers when it finds the task in `observed`: a task whose work has begun
/// cannot be cancelled; any other request succeeds.
pub open spec fn cancel_answer(observed: TaskState) -> Result<(), Error> {
    if observed == TaskState::Running {
        Err(Error::CancelAfterRunning)
    } else {
        Ok(())
    }
}

/// Decides a cancellation request on a task found in `observed`.
pub fn cancel_outcome(observed: TaskState) -> (r: Result<(), Error>)
    ensures
        r == cancel_answer(observed),
{
    match observed {
        TaskState::Running => Err(Error::CancelAfterRunning),
        _ => Ok(()),
    }
}

/// The error with which `wait` returns before it looks at the channel, if any: a handle is
/// waited on once, and a cancelled task has no result to wait for.
pub open spec fn early_answer(already_waited: bool, cancel_requested: bool) -> Option<Error> {
    if already_waited {
        Some(Error::MultipleWaits)
    } else if cancel_requested {
        Some(Error::Cancelled)
    } else {
        None
    }
}

/// Decides whether `wait` returns before it looks at the channel.
pub fn early_exit(already_waited: bool, cancel_requested: bool) -> (r: Option<Error>)
    ensures
        r == early_answer(already_waited, cancel_requested),
{
    if already_waited {
        Some(Error::MultipleWaits)
    } else if cancel_requested {
        Some(Error::Cancelled)
    } else {
        None
    }
}

/// What `wait` returns once the channel has answered: the message delivered, or, where the
/// channel closed with none, `Cancelled` for a task recorded as cancelled and
/// `ChannelDisconnected` otherwise.
pub open spec fn settled<T>(received: Option<Result<T, Error>>, observed: TaskState) -> Result<T, Error> {
    match received {
        Some(outcome) => outcome,
        None => if observed == TaskState::Cancelled {
            Err(Error::Cancelled)
        } else {
            Err(Error::ChannelDisconnected)
        },
    }
}

/// Turns what the channel answered, and the state read after it, into the result of `wait`.
pub fn settle<T>(received: Option<Result<T, Error>>, observed: TaskState) -> (r: Result<T, Error>)
    ensures
        r == settled(received, observed),
{
    match received {
        Some(outcome) => outcome,
        None => match observed {
            TaskState::Cancelled => Err(Error::Cancelled),
            _ => Err(Error::ChannelDisconnected),
        },
    }
}

/// The whole answer of `wait`, from what it finds: whether the handle was waited on before,
/// whether cancellation was requested, what the channel delivered and the state read after.
pub open spec fn wait_answer<T>(
    already_waited: bool,
    cancel_requested: bool,
    received: Option<Result<T, Error>>,
    observed: TaskState,
) -> Result<T, Error> {
    match early_answer(already_waited, cancel_requested) {
        Some(e) => Err(e),
        None => settled(received, observed),
    }
}

/// The outcome that a task delivers on its channel: its value when its work ran, else
/// `Cancelled`.
pub open spec fn delivery<T>(ran: bool, value: T) -> Result<T, Error> {
    if ran {
        Ok(value)
    } else {
        Err(Error::Cancelled)
    }
}

/// A handle is consumed by its first `wait`: every later call answers `MultipleWaits`,
/// whatever the task did, and the first never does. The first answer is the outcome that the
/// task delivered, or, where none came, `Cancelled` or `ChannelDisconnected`.
pub proof fn lemma_single_consumption<T>(
    cancel_requested: bool,
    received: Option<Result<T, Error>>,
    observed: TaskState,
)
    ensures
        wait_answer(true, cancel_requested, received, observed) == Err::<T, Error>(Error::MultipleWaits),
        received is Some && !cancel_requested ==> wait_answer(false, cancel_requested, received, observed) == received.unwrap(),
        received is None ==> (wait_answer(false, cancel_requested, received, observed) == Err::<T, Error>(Error::Cancelled)
            || wait_answer(false, cancel_requested, received, observed) == Err::<T, Error>(Error::ChannelDisconnected)),
{
}

/// Exactly one outcome reaches the first `wait`: where the channel carries a task's delivery,
/// it is its value or `Cancelled`; where none came, `Cancelled` or `ChannelDisconnected`.
/// Never nothing, and never `MultipleWaits`.
pub proof fn lemma_one_delivery<T>(
    cancel_requested: bool,
    ran: bool,
    value: T,
    delivered: bool,
    observed: TaskState,
)
    ensures
        ({
            let received = if delivered { Some(delivery(ran, value)) } else { None };
            let r = wait_answer(false, cancel_requested, received, observed);
            r == Ok::<T, Error>(value) || r == Err::<T, Error>(Error::Cancelled)
                || r == Err::<T, Error>(Error::ChannelDisconnected)
        }),
        ({
            let received = if delivered { Some(delivery(ran, value)) } else { None };
            wait_answer(false, cancel_requested, received, observed) is Ok ==> ran && delivered && !cancel_requested
        }),
{
}

/// A request to cancel fails exactly when the task's work has begun, and then changes nothing
/// that a later `wait` reads: the flag stays clear, so the delivered value comes through.
pub proof fn lemma_cancel_after_start<T>(value: T)
    ensures
        cancel_answer(TaskState::Running) == Err::<(), Error>(Error::CancelAfterRunning),
        cancel_answer(TaskState::Pending) == Ok::<(), Error>(()),
        wait_answer(false, false, Some(delivery(true, value)), TaskState::Completed) == Ok::<T, Error>(value),
        wait_answer(false, true, Some(delivery(false, value)), TaskState::Cancelled) == Err::<T, Error>(Error::Cancelled),
{
}

/// Whether a task found in `observed` has finished: only a completed task has.
pub fn finished(observed: TaskState) -> (r: bool)
    ensures
        r == (observed == TaskState::Completed),
{
    matches!(observed, TaskState::Completed)
}

/// A request to cancel a task that has reached a terminal state never fails, and a task in
/// a terminal state is finished exactly when it completed.
pub proof fn lemma_terminal_cancel(observed: TaskState)
    requires
        observed.is_terminal(),
    ensures
        cancel_answer(observed) == Ok::<(), Error>(()),
        (observed == TaskState::Completed) != (observed == TaskState::Cancelled),
{
}

impl<T> TaskHandle<T> {
    /// A handle that shares `task`'s state and cancellation cells and receives its outcome on
    /// `result_receiver`.
    pub fn new<F: FnOnce() -> T>(task: &Task<T, F>, result_receiver: Receiver<Result<T, Error>>) -> (r: Self) {
        TaskHandle {
            cancel_flag: task.cancel_flag.clone(),
            state: task.state.clone(),
            waited: AtomicBool::new(false),
            result_receiver: Mutex::new(result_receiver),
        }
    }

    /// Whether the task has completed, as of now.
    pub fn has_finished(&self) -> (r: bool) {
        finished(self.state())
    }

    /// The task's state, as of now; other threads may change it at any time.
    pub fn state(&self) -> (r: TaskState) {
        TaskState::from_code(self.state.load(Ordering::Acquire))
    }

    /// Blocks until the task's outcome is known and returns it. Only the first call waits:
    /// every later one answers `MultipleWaits`. Where cancellation was requested first, it
    /// answers `Cancelled` without reading the channel.
    pub fn wait(&self) -> (r: Result<T, Error>)
    {
        let already_waited = self.waited.swap(true, Ordering::AcqRel);
        let cancel_requested = self.cancel_flag.load(Ordering::Acquire);
        match early_exit(already_waited, cancel_requested) {
            Some(e) => Err(e),
            None => {
                let received = {
                    let mut g = lock(&self.result_receiver);
                    recv(guarded(&mut g))
                };
                let observed = TaskState::from_code(self.state.load(Ordering::Acquire));
                settle(received, observed)
            },
        }
    }

    /// Cancels the task unless its work has begun. A pending task moves to `Cancelled` and
    /// will never run; a running one is left alone and `CancelAfterRunning` is returned; a
    /// finished one keeps its state and outcome.
    pub fn cancel(&self) -> (r: Result<(), Error>)
        ensures
            r == Ok::<(), Error>(()) || r == Err::<(), Error>(Error::CancelAfterRunning),
    {
        match self.state.compare_exchange(PENDING, CANCELLED, Ordering::AcqRel, Ordering::Acquire) {
            Ok(_) => {
                self.cancel_flag.store(true, Ordering::Release);
                Ok(())
            },
            Err(actual) => cancel_outcome(TaskState::from_code(actual)),
        }
    }
}

} // verus!
