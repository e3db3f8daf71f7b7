use vstd::prelude::*;
use crate::recovery::{recover, try_recover, Acquired, TryAcquired, TryLockError, TryLockResult};

verus! {

/// Declares `std::sync::Mutex` so that it can stand in fields and
/// signatures; its values are opaque here.
#[verifier::external_type_specification]
#[verifier::external_body]
#[verifier::reject_recursive_types(T)]
pub struct ExStdMutex<T: ?Sized>(std::sync::Mutex<T>);

/// Declares `std::sync::MutexGuard`; its values are opaque here.
#[verifier::external_type_specification]
#[verifier::external_body]
#[verifier::reject_recursive_types(T)]
pub struct ExStdMutexGuard<'a, T: ?Sized + 'a>(std::sync::MutexGuard<'a, T>);

/// Like `std::sync::Mutex`, except that it never poisons itself: a holder
/// failing while it holds the lock leaves the lock fully usable for every
/// later acquirer.
#[verifier::reject_recursive_types(T)]
pub struct Mutex<T> {
    inner: std::sync::Mutex<T>,
}

/// Scoped proof of exclusive ownership of a [`Mutex`]'s protected value,
/// granting read and write access. Dropping it releases the lock, on every
/// exit path of the holder, orderly or not.
#[must_use]
#[verifier::reject_recursive_types(T)]
pub struct MutexGuard<'a, T> {
    inner: std::sync::MutexGuard<'a, T>,
    contents: Ghost<T>,
}

/// Relies on `std::sync::Mutex::new`, which wraps the value without blocking
/// and cannot fail.
#[verifier::external_body]
fn raw_mutex_new<T>(value: T) -> std::sync::Mutex<T> {
    std::sync::Mutex::new(value)
}

/// Relies on `std::sync::Mutex::lock`, which blocks until the calling thread
/// holds the mutex and reports an abandoned previous holder through the
/// `Err` variant, and on `std::sync::PoisonError::into_inner`, which returns
/// the guard that the error carries. A re-entrant attempt by the thread that
/// already holds the mutex deadlocks or panics, as the wrapped primitive
/// decides; this wrapper adds nothing to that behaviour.
#[verifier::external_body]
fn acquire_blocking<'a, T>(m: &'a std::sync::Mutex<T>) -> Acquired<MutexGuard<'a, T>> {
    match m.lock() {
        Ok(g) => Acquired::Clean(MutexGuard { inner: g, contents: Ghost(arbitrary()) }),
        Err(e) => Acquired::Reclaimed(
            MutexGuard { inner: e.into_inner(), contents: Ghost(arbitrary()) },
        ),
    }
}

/// Relies on `std::sync::Mutex::try_lock`, which never blocks and reports
/// `WouldBlock` exactly when another holder currently holds the mutex, and
/// on `std::sync::PoisonError::into_inner` for the abandoned case.
#[verifier::external_body]
fn acquire_nonblocking<'a, T>(m: &'a std::sync::Mutex<T>) -> TryAcquired<MutexGuard<'a, T>> {
    match m.try_lock() {
        Ok(g) => TryAcquired::Clean(MutexGuard { inner: g, contents: Ghost(arbitrary()) }),
        Err(std::sync::TryLockError::Poisoned(e)) => TryAcquired::Reclaimed(
            MutexGuard { inner: e.into_inner(), contents: Ghost(arbitrary()) },
        ),
        Err(std::sync::TryLockError::WouldBlock) => TryAcquired::Contended,
    }
}

/// Relies on `std::sync::Mutex::into_inner`, which consumes the mutex and
/// hands out the protected value, through the `Err` variant if a previous
/// holder was abandoned, and on `std::sync::PoisonError::into_inner`.
#[verifier::external_body]
fn unwrap_mutex_value<T>(m: std::sync::Mutex<T>) -> Acquired<T> {
    match m.into_inner() {
        Ok(value) => Acquired::Clean(value),
        Err(e) => Acquired::Reclaimed(e.into_inner()),
    }
}

/// Relies on `std::sync::Mutex::get_mut`, which hands out a mutable borrow
/// of the protected value without any locking (the exclusive borrow of the
/// mutex itself rules out concurrent holders), and on
/// `std::sync::PoisonError::into_inner` for the abandoned case.
#[verifier::external_body]
fn borrow_mutex_value<'a, T>(m: &'a mut std::sync::Mutex<T>) -> Acquired<&'a mut T> {
    match m.get_mut() {
        Ok(v) => Acquired::Clean(v),
        Err(e) => Acquired::Reclaimed(e.into_inner()),
    }
}

/// Relies on `std::sync::Condvar::wait`, which atomically releases the
/// guard's hold and blocks the calling thread, then reacquires the hold
/// before returning; an abandoned holder observed at reacquisition is
/// reported through the `Err` variant, and
/// `std::sync::PoisonError::into_inner` returns the reacquired guard. Using
/// one condition variable with guards of more than one mutex may panic, as
/// the wrapped primitive decides; this wrapper adds nothing to that
/// behaviour.
#[verifier::external_body]
pub(crate) fn await_notification<'a, T>(
    cv: &std::sync::Condvar,
    guard: MutexGuard<'a, T>,
) -> Acquired<MutexGuard<'a, T>> {
    match cv.wait(guard.inner) {
        Ok(g) => Acquired::Clean(MutexGuard { inner: g, contents: Ghost(arbitrary()) }),
        Err(e) => Acquired::Reclaimed(
            MutexGuard { inner: e.into_inner(), contents: Ghost(arbitrary()) },
        ),
    }
}

/// Relies on `std::sync::Condvar::wait_timeout`, which behaves as `wait`
/// with the blocked phase bounded by `dur`, and on
/// `std::sync::WaitTimeoutResult::timed_out`, which is true exactly when
/// that bound elapsed without a notification being observed.
#[verifier::external_body]
pub(crate) fn await_notification_timeout<'a, T>(
    cv: &std::sync::Condvar,
    guard: MutexGuard<'a, T>,
    dur: std::time::Duration,
) -> Acquired<(MutexGuard<'a, T>, bool)> {
    match cv.wait_timeout(guard.inner, dur) {
        Ok((g, r)) => Acquired::Clean(
            (MutexGuard { inner: g, contents: Ghost(arbitrary()) }, r.timed_out()),
        ),
        Err(e) => {
            let (g, r) = e.into_inner();
            Acquired::Reclaimed(
                (MutexGuard { inner: g, contents: Ghost(arbitrary()) }, r.timed_out()),
            )
        },
    }
}

impl<T> Mutex<T> {
    /// Wraps `value` in a fresh, unheld mutex. Never blocks, never fails.
    pub fn new(value: T) -> Mutex<T> {
        Mutex { inner: raw_mutex_new(value) }
    }

    /// Consumes the mutex and extracts the protected value: exactly whatever
    /// the last holder left, whether or not that holder was abandoned
    /// mid-hold. Consuming the mutex statically rules out live guards, so no
    /// runtime acquisition happens.
    pub fn into_inner(self) -> T {
        recover(unwrap_mutex_value(self.inner))
    }

    /// Blocks until the calling thread has exclusive ownership, then hands
    /// out the guard. Infallible: an abandoned previous holder is recovered
    /// from, never reported, and never leaves the mutex unusable.
    pub fn lock(&self) -> MutexGuard<'_, T> {
        recover(acquire_blocking(&self.inner))
    }

    /// Non-blocking acquisition. Refused exactly when another holder
    /// currently holds the mutex; an abandoned previous holder never causes
    /// a refusal.
    pub fn try_lock(&self) -> (r: TryLockResult<MutexGuard<'_, T>>)
        ensures
            r is Err ==> r->Err_0 == TryLockError,
    {
        try_recover(acquire_nonblocking(&self.inner))
    }

    /// Mutable borrow of the protected value without locking: the exclusive
    /// borrow of the mutex itself makes concurrent guards impossible. An
    /// abandonment marker left by a failed holder is absorbed here too.
    pub fn get_mut(&mut self) -> &mut T {
        recover(borrow_mutex_value(&mut self.inner))
    }
}

impl<'a, T> MutexGuard<'a, T> {
    /// The protected value as seen through this guard. The holder has
    /// exclusive access while the guard is alive, so this changes only when
    /// the holder itself writes through the guard.
    pub closed spec fn value(&self) -> T {
        self.contents@
    }

    /// Read access to the protected value.
    ///
    /// Relies on `std::sync::MutexGuard`'s `Deref`, which yields the value
    /// the mutex protects; exclusive ownership keeps that value stable for
    /// as long as this guard is alive.
    #[verifier::external_body]
    pub fn get(&self) -> (r: &T)
        ensures
            *r == self.value(),
    {
        &*self.inner
    }

    /// Write access: stores `value` as the protected value.
    ///
    /// Relies on `std::sync::MutexGuard`'s `DerefMut`, which yields the
    /// place the mutex protects.
    #[verifier::external_body]
    pub fn set(&mut self, value: T)
        ensures
            final(self).value() == value,
    {
        *self.inner = value;
    }
}

} // verus!
