use vstd::prelude::*;

verus! {

/// Where a task stands in its life: `Pending` until a worker begins it, then `Running`,
/// then `Completed`; or `Cancelled` instead of ever running.
#[derive(Debug, Clone, Copy, PartialEq, Eq, Structural)]
pub enum TaskState {
    Pending,
    Running,
    Completed,
    Cancelled,
}

/// The code under which `Pending` is kept in a shared state cell.
pub const PENDING: u8 = 0;

/// The code under which `Running` is kept in a shared state cell.
pub const RUNNING: u8 = 1;

/// The code under which `Completed` is kept in a shared state cell.
pub const COMPLETED: u8 = 2;

/// The code under which `Cancelled` is kept in a shared state cell.
pub const CANCELLED: u8 = 3;

impl TaskState {
    /// The byte that stands for this state in a shared cell.
    pub open spec fn spec_code(self) -> u8 {
        match self {
            TaskState::Pending => PENDING,
            TaskState::Running => RUNNING,
            TaskState::Completed => COMPLETED,
            TaskState::Cancelled => CANCELLED,
        }
    }

    /// The state that a byte of a shared cell stands for. Only the four codes are ever
    /// stored; any other byte reads as `Cancelled`.
    pub open spec fn spec_from_code(c: u8) -> TaskState {
        if c == PENDING {
            TaskState::Pending
        } else if c == RUNNING {
            TaskState::Running
        } else if c == COMPLETED {
            TaskState::Completed
        } else {
            TaskState::Cancelled
        }
    }

    /// A state that is never left once reached.
    pub open spec fn is_terminal(self) -> bool {
        self == TaskState::Completed || self == TaskState::Cancelled
    }

    #[verifier::when_used_as_spec(spec_code)]
    pub fn code(self) -> (r: u8)
        ensures
            r == self.spec_code(),
    {
        match self {
            TaskState::Pending => PENDING,
            TaskState::Running => RUNNING,
            TaskState::Completed => COMPLETED,
            TaskState::Cancelled => CANCELLED,
        }
    }

    #[verifier::when_used_as_spec(spec_from_code)]
    pub fn from_code(c: u8) -> (r: TaskState)
        ensures
            r == TaskState::spec_from_code(c),
    {
        if c == PENDING {
            TaskState::Pending
        } else if c == RUNNING {
            TaskState::Running
        } else if c == COMPLETED {
            TaskState::Completed
        } else {
            TaskState::Cancelled
        }
    }
}

/// Every state survives being stored as its code and read back, and distinct states have
/// distinct codes.
pub proof fn lemma_code_round_trip(s: TaskState, t: TaskState)
    ensures
        TaskState::spec_from_code(s.spec_code()) == s,
        s.spec_code() == t.spec_code() <==> s == t,
{
}

} // verus!
