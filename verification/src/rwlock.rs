use vstd::prelude::*;
use crate::recovery::{recover, try_recover, Acquired, TryAcquired, TryLockError, TryLockResult};

verus! {

/// Declares `std::sync::RwLock` so that it can stand in fields and
/// signatures; its values are opaque here.
#[verifier::external_type_specification]
#[verifier::external_body]
#[verifier::reject_recursive_types(T)]
pub struct ExStdRwLock<T: ?Sized>(std::sync::RwLock<T>);

/// Declares `std::sync::RwLockReadGuard`; its values are opaque here.
#[verifier::external_type_specification]
#[verifier::external_body]
#[verifier::reject_recursive_types(T)]
pub struct ExStdRwLockReadGuard<'a, T: ?Sized>(std::sync::RwLockReadGuard<'a, T>);

/// Declares `std::sync::RwLockWriteGuard`; its values are opaque here.
#[verifier::external_type_specification]
#[verifier::external_body]
#[verifier::reject_recursive_types(T)]
pub struct ExStdRwLockWriteGuard<'a, T: ?Sized + 'a>(std::sync::RwLockWriteGuard<'a, T>);

/// Like `std::sync::RwLock`, except that it never poisons itself: a holder
/// failing while it holds the lock, for reading or for writing, leaves the
/// lock fully usable for every later acquirer.
#[verifier::reject_recursive_types(T)]
pub struct RwLock<T> {
    inner: std::sync::RwLock<T>,
}

/// Scoped proof of shared ownership of an [`RwLock`]'s protected value,
/// granting read access. Any number of these may coexist, and while any is
/// alive no write guard exists. Dropping it releases the shared hold.
#[must_use]
#[verifier::reject_recursive_types(T)]
pub struct RwLockReadGuard<'a, T> {
    inner: std::sync::RwLockReadGuard<'a, T>,
    contents: Ghost<T>,
}

/// Scoped proof of exclusive ownership of an [`RwLock`]'s protected value,
/// granting read and write access; while it is alive no other guard, shared
/// or exclusive, exists. Dropping it releases the exclusive hold.
#[must_use]
#[verifier::reject_recursive_types(T)]
pub struct RwLockWriteGuard<'a, T> {
    inner: std::sync::RwLockWriteGuard<'a, T>,
    contents: Ghost<T>,
}

/// Relies on `std::sync::RwLock::new`, which wraps the value without
/// blocking and cannot fail.
#[verifier::external_body]
fn raw_rwlock_new<T>(value: T) -> std::sync::RwLock<T> {
    std::sync::RwLock::new(value)
}

/// Relies on `std::sync::RwLock::read`, which blocks until the calling
/// thread holds the lock for reading and reports an abandoned writer through
/// the `Err` variant, and on `std::sync::PoisonError::into_inner`, which
/// returns the guard that the error carries. A re-entrant attempt by a thread
/// that already holds the lock deadlocks or panics, as the wrapped primitive
/// decides; this wrapper adds nothing to that behaviour.
#[verifier::external_body]
fn acquire_shared<'a, T>(l: &'a std::sync::RwLock<T>) -> Acquired<RwLockReadGuard<'a, T>> {
    match l.read() {
        Ok(g) => Acquired::Clean(RwLockReadGuard { inner: g, contents: Ghost(arbitrary()) }),
        Err(e) => Acquired::Reclaimed(
            RwLockReadGuard { inner: e.into_inner(), contents: Ghost(arbitrary()) },
        ),
    }
}

/// Relies on `std::sync::RwLock::try_read`, which never blocks and reports
/// `WouldBlock` exactly when the shared mode cannot be granted right now
/// (a writer holds the lock, or one is pending under the primitive's own
/// policy), and on `std::sync::PoisonError::into_inner`.
#[verifier::external_body]
fn acquire_shared_nonblocking<'a, T>(
    l: &'a std::sync::RwLock<T>,
) -> TryAcquired<RwLockReadGuard<'a, T>> {
    match l.try_read() {
        Ok(g) => TryAcquired::Clean(RwLockReadGuard { inner: g, contents: Ghost(arbitrary()) }),
        Err(std::sync::TryLockError::Poisoned(e)) => TryAcquired::Reclaimed(
            RwLockReadGuard { inner: e.into_inner(), contents: Ghost(arbitrary()) },
        ),
        Err(std::sync::TryLockError::WouldBlock) => TryAcquired::Contended,
    }
}

/// Relies on `std::sync::RwLock::write`, which blocks until the calling
/// thread holds the lock exclusively and reports an abandoned holder through
/// the `Err` variant, and on `std::sync::PoisonError::into_inner`. A
/// re-entrant attempt by a thread that already holds the lock deadlocks or
/// panics, as the wrapped primitive decides.
#[verifier::external_body]
fn acquire_exclusive<'a, T>(l: &'a std::sync::RwLock<T>) -> Acquired<RwLockWriteGuard<'a, T>> {
    match l.write() {
        Ok(g) => Acquired::Clean(RwLockWriteGuard { inner: g, contents: Ghost(arbitrary()) }),
        Err(e) => Acquired::Reclaimed(
            RwLockWriteGuard { inner: e.into_inner(), contents: Ghost(arbitrary()) },
        ),
    }
}

/// Relies on `std::sync::RwLock::try_write`, which never blocks and reports
/// `WouldBlock` exactly when the exclusive mode cannot be granted right now
/// (any reader or writer holds the lock), and on
/// `std::sync::PoisonError::into_inner`.
#[verifier::external_body]
fn acquire_exclusive_nonblocking<'a, T>(
    l: &'a std::sync::RwLock<T>,
) -> TryAcquired<RwLockWriteGuard<'a, T>> {
    match l.try_write() {
        Ok(g) => TryAcquired::Clean(RwLockWriteGuard { inner: g, contents: Ghost(arbitrary()) }),
        Err(std::sync::TryLockError::Poisoned(e)) => TryAcquired::Reclaimed(
            RwLockWriteGuard { inner: e.into_inner(), contents: Ghost(arbitrary()) },
        ),
        Err(std::sync::TryLockError::WouldBlock) => TryAcquired::Contended,
    }
}

/// Relies on `std::sync::RwLock::into_inner`, which consumes the lock and
/// hands out the protected value, through the `Err` variant if a previous
/// holder was abandoned, and on `std::sync::PoisonError::into_inner`.
#[verifier::external_body]
fn unwrap_rwlock_value<T>(l: std::sync::RwLock<T>) -> Acquired<T> {
    match l.into_inner() {
        Ok(value) => Acquired::Clean(value),
        Err(e) => Acquired::Reclaimed(e.into_inner()),
    }
}

/// Relies on `std::sync::RwLock::get_mut`, which hands out a mutable borrow
/// of the protected value without any locking (the exclusive borrow of the
/// lock itself rules out concurrent holders), and on
/// `std::sync::PoisonError::into_inner` for the abandoned case.
#[verifier::external_body]
fn borrow_rwlock_value<'a, T>(l: &'a mut std::sync::RwLock<T>) -> Acquired<&'a mut T> {
    match l.get_mut() {
        Ok(v) => Acquired::Clean(v),
        Err(e) => Acquired::Reclaimed(e.into_inner()),
    }
}

impl<T> RwLock<T> {
    /// Wraps `value` in a fresh, unheld lock. Never blocks, never fails.
    pub fn new(value: T) -> RwLock<T> {
        RwLock { inner: raw_rwlock_new(value) }
    }

    /// Consumes the lock and extracts the protected value: exactly whatever
    /// the last holder left, whether or not that holder was abandoned
    /// mid-hold. Consuming the lock statically rules out live guards, so no
    /// runtime acquisition happens.
    pub fn into_inner(self) -> T {
        recover(unwrap_rwlock_value(self.inner))
    }

    /// Blocks until the calling thread holds the lock for reading, then
    /// hands out the shared guard. Infallible: an abandoned previous holder
    /// is recovered from, never reported, and never leaves the lock
    /// unusable.
    pub fn read(&self) -> RwLockReadGuard<'_, T> {
        recover(acquire_shared(&self.inner))
    }

    /// Non-blocking shared acquisition. Refused exactly when the shared mode
    /// cannot be granted under the current holder configuration; an
    /// abandoned previous holder never causes a refusal.
    pub fn try_read(&self) -> (r: TryLockResult<RwLockReadGuard<'_, T>>)
        ensures
            r is Err ==> r->Err_0 == TryLockError,
    {
        try_recover(acquire_shared_nonblocking(&self.inner))
    }

    /// Blocks until the calling thread holds the lock exclusively, then
    /// hands out the write guard. Infallible: an abandoned previous holder
    /// is recovered from, never reported, and never leaves the lock
    /// unusable.
    pub fn write(&self) -> RwLockWriteGuard<'_, T> {
        recover(acquire_exclusive(&self.inner))
    }

    /// Non-blocking exclusive acquisition. Refused exactly when any other
    /// holder, shared or exclusive, currently holds the lock; an abandoned
    /// previous holder never causes a refusal.
    pub fn try_write(&self) -> (r: TryLockResult<RwLockWriteGuard<'_, T>>)
        ensures
            r is Err ==> r->Err_0 == TryLockError,
    {
        try_recover(acquire_exclusive_nonblocking(&self.inner))
    }

    /// Mutable borrow of the protected value without locking: the exclusive
    /// borrow of the lock itself makes concurrent guards impossible. An
    /// abandonment marker left by a failed holder is absorbed here too.
    pub fn get_mut(&mut self) -> &mut T {
        recover(borrow_rwlock_value(&mut self.inner))
    }
}

impl<'a, T> RwLockReadGuard<'a, T> {
    /// The protected value as seen through this guard. Writers are excluded
    /// while any read guard is alive, so this is stable for the guard's
    /// whole lifetime.
    pub closed spec fn value(&self) -> T {
        self.contents@
    }

    /// Read access to the protected value.
    ///
    /// Relies on `std::sync::RwLockReadGuard`'s `Deref`, which yields the
    /// value the lock protects; the shared hold keeps that value stable for
    /// as long as this guard is alive.
    #[verifier::external_body]
    pub fn get(&self) -> (r: &T)
        ensures
            *r == self.value(),
    {
        &*self.inner
    }
}

impl<'a, T> RwLockWriteGuard<'a, T> {
    /// The protected value as seen through this guard. The holder has
    /// exclusive access while the guard is alive, so this changes only when
    /// the holder itself writes through the guard.
    pub closed spec fn value(&self) -> T {
        self.contents@
    }

    /// Read access to the protected value.
    ///
    /// Relies on `std::sync::RwLockWriteGuard`'s `Deref`, which yields the
    /// value the lock protects; exclusive ownership keeps that value stable
    /// for as long as this guard is alive.
    #[verifier::external_body]
    pub fn get(&self) -> (r: &T)
        ensures
            *r == self.value(),
    {
        &*self.inner
    }

    /// Write access: stores `value` as the protected value.
    ///
    /// Relies on `std::sync::RwLockWriteGuard`'s `DerefMut`, which yields
    /// the place the lock protects.
    #[verifier::external_body]
    pub fn set(&mut self, value: T)
        ensures
            final(self).value() == value,
    {
        *self.inner = value;
    }
}

} // verus!
