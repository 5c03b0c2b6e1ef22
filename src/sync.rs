use vstd::prelude::*;
use std::sync::mpsc::{Receiver, Sender};
use std::sync::{Condvar, Mutex, MutexGuard};
use crate::scheduler::TaskQueue;

verus! {

// std's blocking primitives. Their contents are opaque here: other threads change them,
// so a value read back is never assumed to be the one put in.

#[verifier::external_type_specification]
#[verifier::external_body]
#[verifier::reject_recursive_types(T)]
pub struct ExMutex<T: ?Sized>(Mutex<T>);

#[verifier::external_type_specification]
#[verifier::external_body]
#[verifier::reject_recursive_types(T)]
pub struct ExMutexGuard<'a, T: ?Sized + 'a>(MutexGuard<'a, T>);

#[verifier::external_type_specification]
#[verifier::external_body]
pub struct ExCondvar(Condvar);

#[verifier::external_type_specification]
#[verifier::external_body]
#[verifier::reject_recursive_types(T)]
pub struct ExSender<T>(Sender<T>);

#[verifier::external_type_specification]
#[verifier::external_body]
#[verifier::reject_recursive_types(T)]
pub struct ExReceiver<T>(Receiver<T>);

/// Relies on std::sync::Mutex::new: a lock around `t`.
pub assume_specification<T>[ Mutex::<T>::new ](t: T) -> Mutex<T>;

/// Relies on std::sync::Condvar::new: a condition variable with no waiter.
pub assume_specification[ Condvar::new ]() -> Condvar;

/// Relies on std::sync::Condvar::notify_one: wakes one waiter, if any.
pub assume_specification[ Condvar::notify_one ](cv: &Condvar);

/// Relies on std::sync::Condvar::notify_all: wakes every waiter.
pub assume_specification[ Condvar::notify_all ](cv: &Condvar);

/// Relies on std::sync::mpsc::channel: a fresh pair of connected ends.
pub assume_specification<T>[ std::sync::mpsc::channel::<T> ]() -> (Sender<T>, Receiver<T>);

/// Relies on std::sync::Mutex::lock: blocks until the lock is held. A lock that a panicking
/// holder left poisoned is taken over as it stands.
#[verifier::external_body]
pub(crate) fn lock<T>(m: &Mutex<T>) -> MutexGuard<'_, T> {
    match m.lock() {
        Ok(g) => g,
        Err(poisoned) => poisoned.into_inner(),
    }
}

/// Relies on DerefMut for std::sync::MutexGuard: the value that the held lock guards.
#[verifier::external_body]
pub(crate) fn guarded<'a, 'b, T>(g: &'b mut MutexGuard<'a, T>) -> &'b mut T {
    &mut **g
}

/// Relies on std::sync::mpsc::Sender::send: hands `v` to the receiving end. Where that end
/// is gone nobody waits for `v`, and it is dropped.
#[verifier::external_body]
pub(crate) fn send<T>(tx: &Sender<T>, v: T) {
    let _ = tx.send(v);
}

/// Relies on std::sync::mpsc::Receiver::recv: blocks for the next message; `None` once every
/// sending end is gone with none left.
#[verifier::external_body]
pub(crate) fn recv<T>(rx: &Receiver<T>) -> Option<T> {
    rx.recv().ok()
}

/// Relies on std::sync::Condvar::wait_while: releases the lock and sleeps until woken with a
/// queue that has work or is closed, then holds the lock again. A poisoned lock is taken over.
#[verifier::external_body]
pub(crate) fn wait_for_work<'a, J>(
    cv: &Condvar,
    g: MutexGuard<'a, TaskQueue<J>>,
) -> MutexGuard<'a, TaskQueue<J>> {
    match cv.wait_while(g, |q| q.must_wait()) {
        Ok(g) => g,
        Err(poisoned) => poisoned.into_inner(),
    }
}

} // verus!
