//! Items that can be brought to the time of other items.

use vstd::prelude::*;

verus! {

/// Implemented by objects that might be synchronized.
///
/// The spec functions give the mathematical view of an item: its time, and the
/// item it becomes at another time, if any. Being spec functions, they are
/// deterministic: synchronizing the same item to the same time always gives
/// the same outcome.
pub trait Synchronize: Sized {
    /// The type of "time": what tells how to synchronize objects so that they
    /// can be checked for equivalence.
    type Time;

    /// The time of the item.
    spec fn time_of(&self) -> Self::Time;

    /// The item re-expressed at time `t`, or `None` where that is undefined.
    spec fn synchronized(&self, t: Self::Time) -> Option<Self>;

    /// Gets the time of the item.
    fn time(&self) -> (t: Self::Time)
        ensures
            t == self.time_of(),
    ;

    /// Synchronizes the item with some time, if possible.
    fn synchronize(&self, time: &Self::Time) -> (r: Option<Self>)
        ensures
            r == self.synchronized(*time),
    ;

    /// Value equality of two items.
    fn equals(&self, other: &Self) -> (r: bool)
        ensures
            r == (*self == *other),
    ;

    /// Returns `true` if the item can be synchronized with `time`.
    fn can_synchronize(&self, time: &Self::Time) -> (r: bool)
        ensures
            r == self.synchronized(*time) is Some,
    {
        self.synchronize(time).is_some()
    }

    /// Returns `Some(true)` if the two items are equivalent, `Some(false)` if
    /// they are inequivalent, and `None` if they cannot be synchronized.
    ///
    /// `b` is first brought to the time of `self`; only where that fails is
    /// `self` brought to the time of `b`.
    fn equiv(&self, b: &Self) -> (r: Option<bool>)
        ensures
            b.synchronized(self.time_of()) matches Some(b2) ==> r == Some(*self == b2),
            b.synchronized(self.time_of()) is None ==> match self.synchronized(b.time_of()) {
                Some(a2) => r == Some(a2 == *b),
                None => r is None,
            },
    {
        if let Some(b2) = b.synchronize(&self.time()) {
            Some(self.equals(&b2))
        } else if let Some(a2) = self.synchronize(&b.time()) {
            Some(a2.equals(b))
        } else {
            None
        }
    }
}

/// Three-valued equivalence of `a` and `b`, as [`Synchronize::equiv`]
/// computes it: the outcome of comparing them at the time of `a`, else at the
/// time of `b`, else `None`.
pub open spec fn equiv_of<T: Synchronize>(a: T, b: T) -> Option<bool> {
    match b.synchronized(a.time_of()) {
        Some(b2) => Some(a == b2),
        None => match a.synchronized(b.time_of()) {
            Some(a2) => Some(a2 == b),
            None => None,
        },
    }
}

} // verus!
