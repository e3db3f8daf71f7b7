use vstd::prelude::*;
use crate::mutex::{await_notification, await_notification_timeout, MutexGuard};
use crate::recovery::recover;

verus! {

/// Declares `std::sync::Condvar` so that it can stand in fields and
/// signatures; its values are opaque here.
#[verifier::external_type_specification]
#[verifier::external_body]
pub struct ExStdCondvar(std::sync::Condvar);

/// Blocking wait/notify coordination, used together with a [`MutexGuard`].
/// It owns no data of its own; reacquisition after a wait applies the same
/// recovery policy as the locks, so an abandoned holder never leaves the
/// mutex/condvar pair unusable.
pub struct Condvar {
    inner: std::sync::Condvar,
}

/// Relies on `std::sync::Condvar::new`, which creates the coordination
/// object with no waiters, without blocking, and cannot fail.
#[verifier::external_body]
fn raw_condvar_new() -> std::sync::Condvar {
    std::sync::Condvar::new()
}

/// Relies on `std::sync::Condvar::notify_one`, which wakes one blocked
/// waiter if any, never blocks and never fails.
#[verifier::external_body]
fn raw_notify_one(cv: &std::sync::Condvar) {
    cv.notify_one()
}

/// Relies on `std::sync::Condvar::notify_all`, which wakes every blocked
/// waiter, never blocks and never fails.
#[verifier::external_body]
fn raw_notify_all(cv: &std::sync::Condvar) {
    cv.notify_all()
}

impl Condvar {
    /// A fresh coordination object with no waiters. Never blocks, never
    /// fails. One object may serve any number of locks, though correct use
    /// pairs each wait call with a guard of one mutex.
    pub fn new() -> Condvar {
        Condvar { inner: raw_condvar_new() }
    }

    /// Consumes the guard, atomically trading "holding the lock" for
    /// "blocked, not holding the lock", and blocks until woken; then
    /// reacquires exclusive hold and returns the new guard. Infallible: an
    /// abandoned holder observed at reacquisition is recovered from, never
    /// reported. Spurious wake-ups are allowed, and other holders may have
    /// changed the protected value while this thread was blocked, so callers
    /// re-check their wait condition in a loop.
    pub fn wait<'a, T>(&self, guard: MutexGuard<'a, T>) -> MutexGuard<'a, T> {
        recover(await_notification(&self.inner, guard))
    }

    /// As [`Condvar::wait`], but the blocked phase is bounded by `dur` (the
    /// reacquisition phase after waking is not). The returned flag is true
    /// exactly when the bound elapsed without a notification being observed.
    pub fn wait_timeout<'a, T>(
        &self,
        guard: MutexGuard<'a, T>,
        dur: std::time::Duration,
    ) -> (MutexGuard<'a, T>, bool) {
        recover(await_notification_timeout(&self.inner, guard, dur))
    }

    /// Wakes one waiter blocked on this object, chosen by the wrapped
    /// primitive's own policy; a no-op when none is waiting. Never blocks,
    /// never fails.
    pub fn notify_one(&self) {
        raw_notify_one(&self.inner)
    }

    /// Wakes every waiter blocked on this object; a no-op when none is
    /// waiting. Never blocks, never fails.
    pub fn notify_all(&self) {
        raw_notify_all(&self.inner)
    }
}

} // verus!
