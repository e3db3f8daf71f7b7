//! Mutual-exclusion and reader-writer locking primitives that never poison.
//!
//! The types here wrap the blocking primitives of `std::sync` and expose the
//! same surface, except that a holder failing while it holds a lock never
//! leaves the lock in a permanently unusable state: every acquisition path
//! applies a recovery policy that yields a usable guard, whether the previous
//! holder released the lock in an orderly way or was abandoned mid-hold.

mod condvar;
mod mutex;
mod recovery;
mod rwlock;

pub use condvar::Condvar;
pub use mutex::Mutex;
pub use mutex::MutexGuard;
pub use recovery::recover;
pub use recovery::try_recover;
pub use recovery::Acquired;
pub use recovery::TryAcquired;
pub use recovery::TryLockError;
pub use recovery::TryLockResult;
pub use rwlock::RwLock;
pub use rwlock::RwLockReadGuard;
pub use rwlock::RwLockWriteGuard;
