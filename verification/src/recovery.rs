use vstd::prelude::*;
use vstd::string::StringExecFns;

verus! {

/// What an acquisition attempt on a wrapped blocking primitive came back
/// with: either the resource was handed over after an orderly release, or the
/// primitive reported that a previous holder was abandoned mid-hold and
/// handed the resource over anyway, exactly as that holder left it.
pub enum Acquired<G> {
    /// The previous holder released the resource in an orderly way.
    Clean(G),
    /// A previous holder failed while holding. The carried resource is
    /// whatever that holder left behind.
    Reclaimed(G),
}

impl<G> Acquired<G> {
    /// The resource carried by the outcome, whichever way it was obtained.
    pub open spec fn value(self) -> G {
        match self {
            Acquired::Clean(g) => g,
            Acquired::Reclaimed(g) => g,
        }
    }
}

/// What a non-blocking acquisition attempt came back with: the two granted
/// outcomes of [`Acquired`], or a refusal because some other holder currently
/// holds the lock in a conflicting mode.
pub enum TryAcquired<G> {
    /// Granted after an orderly release by the previous holder.
    Clean(G),
    /// Granted although a previous holder was abandoned mid-hold.
    Reclaimed(G),
    /// Refused: the lock is currently held in a conflicting mode. This is
    /// the only refused outcome; abandonment is never one.
    Contended,
}

impl<G> TryAcquired<G> {
    /// Whether the attempt was granted a resource.
    pub open spec fn is_granted(self) -> bool {
        !(self is Contended)
    }

    /// The resource carried by a granted outcome.
    pub open spec fn value(self) -> G
        recommends
            self.is_granted(),
    {
        match self {
            TryAcquired::Clean(g) => g,
            TryAcquired::Reclaimed(g) => g,
            TryAcquired::Contended => arbitrary(),
        }
    }
}

/// The one externally visible refusal: a non-blocking acquisition could not
/// proceed because the lock is currently held by someone else. It never
/// signals corruption or abandonment.
#[derive(Debug, Clone, Copy, PartialEq, Eq, Structural)]
pub struct TryLockError;

/// The outcome of a non-blocking acquisition attempt.
pub type TryLockResult<T> = Result<T, TryLockError>;

impl TryLockError {
    /// The fixed human-readable rendering of the refusal.
    pub fn message(&self) -> (s: String)
        ensures
            s@ == "lock call failed because the operation would block"@,
    {
        String::from_str("lock call failed because the operation would block")
    }
}

/// The failure-recovery policy applied at every blocking acquisition site:
/// both outcomes, orderly or abandoned, yield the carried resource unchanged.
/// No outcome is ever turned into a permanent failure state.
pub fn recover<G>(a: Acquired<G>) -> (g: G)
    ensures
        g == a.value(),
{
    match a {
        Acquired::Clean(g) => g,
        Acquired::Reclaimed(g) => g,
    }
}

/// The failure-recovery policy applied at every non-blocking acquisition
/// site: a granted outcome yields its resource unchanged, abandoned or not,
/// and only contention is reported as a refusal.
pub fn try_recover<G>(a: TryAcquired<G>) -> (r: TryLockResult<G>)
    ensures
        r is Ok <==> a.is_granted(),
        a.is_granted() ==> r == TryLockResult::<G>::Ok(a.value()),
        a is Reclaimed ==> r is Ok,
        r is Err ==> r->Err_0 == TryLockError,
{
    match a {
        TryAcquired::Clean(g) => Ok(g),
        TryAcquired::Reclaimed(g) => Ok(g),
        TryAcquired::Contended => Err(TryLockError),
    }
}

} // verus!
