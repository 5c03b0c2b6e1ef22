mod error;
mod pool;
mod scheduler;
mod state;
mod sync;
mod task;

pub use error::Error;
pub use pool::{ThreadPoolBuilder, submit, DEFAULT_POOL_SIZE, MAX_POOL_SIZE};
pub use scheduler::{
    FifoScheduler, Scheduler, TaskQueue, drain_order, lemma_closed_releases, lemma_drain_order,
    lemma_fifo_order, pushed_all,
};
pub use state::{TaskState, lemma_code_round_trip, CANCELLED, COMPLETED, PENDING, RUNNING};
pub use task::{
    AsTask, Task, TaskHandle, ToTask, cancel_answer, cancel_outcome, delivery, early_answer,
    early_exit, finished, lemma_cancel_after_start, lemma_terminal_cancel, lemma_one_delivery, lemma_single_consumption,
    may_begin, settle, settled, wait_answer,
};
