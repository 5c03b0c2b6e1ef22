use taskpool::{
    cancel_outcome, early_exit, finished, may_begin, settle, Error, FifoScheduler, TaskQueue, TaskState,
    ThreadPoolBuilder, CANCELLED, COMPLETED, DEFAULT_POOL_SIZE, MAX_POOL_SIZE, PENDING, RUNNING,
};

#[test]
fn state_codes_round_trip() {
    for s in [TaskState::Pending, TaskState::Running, TaskState::Completed, TaskState::Cancelled] {
        assert_eq!(TaskState::from_code(s.code()), s);
    }
    assert_eq!(TaskState::Pending.code(), PENDING);
    assert_eq!(TaskState::Running.code(), RUNNING);
    assert_eq!(TaskState::Completed.code(), COMPLETED);
    assert_eq!(TaskState::Cancelled.code(), CANCELLED);
    assert_eq!(TaskState::from_code(1), TaskState::Running);
    assert_eq!(TaskState::from_code(200), TaskState::Cancelled);
}

#[test]
fn cancel_refused_only_while_running() {
    assert_eq!(cancel_outcome(TaskState::Running), Err(Error::CancelAfterRunning));
    assert_eq!(cancel_outcome(TaskState::Pending), Ok(()));
    assert_eq!(cancel_outcome(TaskState::Completed), Ok(()));
    assert_eq!(cancel_outcome(TaskState::Cancelled), Ok(()));
}

#[test]
fn early_exit_order() {
    assert_eq!(early_exit(true, true), Some(Error::MultipleWaits));
    assert_eq!(early_exit(true, false), Some(Error::MultipleWaits));
    assert_eq!(early_exit(false, true), Some(Error::Cancelled));
    assert_eq!(early_exit(false, false), None);
}

#[test]
fn settle_cases() {
    assert_eq!(settle(Some(Ok(5)), TaskState::Completed), Ok(5));
    assert_eq!(settle::<i32>(Some(Err(Error::Cancelled)), TaskState::Cancelled), Err(Error::Cancelled));
    assert_eq!(settle::<i32>(None, TaskState::Cancelled), Err(Error::Cancelled));
    assert_eq!(settle::<i32>(None, TaskState::Pending), Err(Error::ChannelDisconnected));
    assert_eq!(settle::<i32>(None, TaskState::Completed), Err(Error::ChannelDisconnected));
    assert_eq!(
        settle::<i32>(Some(Err(Error::Other("x".to_string()))), TaskState::Completed),
        Err(Error::Other("x".to_string()))
    );
}

#[test]
fn may_begin_needs_claim_and_no_request() {
    assert!(may_begin(false, true));
    assert!(!may_begin(true, true));
    assert!(!may_begin(false, false));
    assert!(!may_begin(true, false));
}

#[test]
fn queue_hands_out_in_arrival_order() {
    let mut q = TaskQueue::new();
    assert!(q.must_wait());
    assert_eq!(q.push(1), None);
    assert_eq!(q.push(2), None);
    assert_eq!(q.push(3), None);
    assert_eq!(q.len(), 3);
    assert!(!q.must_wait());
    assert_eq!(q.take_next(), Some(1));
    assert_eq!(q.take_next(), Some(2));
    assert_eq!(q.push(4), None);
    assert_eq!(q.take_next(), Some(3));
    assert_eq!(q.take_next(), Some(4));
    assert_eq!(q.take_next(), None);
}

#[test]
fn closed_queue_returns_rest_and_refuses() {
    let mut q = TaskQueue::new();
    q.push('a');
    q.push('b');
    assert_eq!(q.close(), vec!['a', 'b']);
    assert!(q.closed());
    assert_eq!(q.len(), 0);
    assert!(!q.must_wait());
    assert_eq!(q.push('c'), Some('c'));
    assert_eq!(q.take_next(), None);
}

#[test]
fn builder_defaults() {
    let b = ThreadPoolBuilder::new();
    assert_eq!(b.size(), DEFAULT_POOL_SIZE);
    assert_eq!(DEFAULT_POOL_SIZE, 4);
    let (n, _s) = b.settings().unwrap();
    assert_eq!(n, 4);
}

#[test]
fn builder_size_bound() {
    assert_eq!(MAX_POOL_SIZE, 128);
    assert!(ThreadPoolBuilder::new().num_threads(129).settings().is_err());
    assert!(ThreadPoolBuilder::new().num_threads(usize::MAX).settings().is_err());
    assert_eq!(ThreadPoolBuilder::new().num_threads(128).settings().map(|s| s.0), Ok(128));
    assert_eq!(ThreadPoolBuilder::new().num_threads(0).settings().map(|s| s.0), Ok(0));
}

#[test]
fn builder_keeps_chosen_scheduler() {
    let b = ThreadPoolBuilder::new().num_threads(2).scheduler(FifoScheduler::new());
    assert_eq!(b.size(), 2);
    let (n, _s) = b.settings().unwrap();
    assert_eq!(n, 2);
}

#[test]
fn finished_only_when_completed() {
    assert!(finished(TaskState::Completed));
    assert!(!finished(TaskState::Pending));
    assert!(!finished(TaskState::Running));
    assert!(!finished(TaskState::Cancelled));
}
