//! Equivalence classes checked against a single representative item.

use vstd::prelude::*;

use crate::synchronize::{equiv_of, Synchronize};

verus! {

/// `a` brought to the time of `core` is `core` itself.
pub open spec fn reaches_core<T: Synchronize>(center: T, a: T) -> bool {
    a.synchronized(center.time_of()) == Some(center)
}

/// `core` brought to the time of `a` is `a` itself.
pub open spec fn core_reaches<T: Synchronize>(center: T, a: T) -> bool {
    center.synchronized(a.time_of()) == Some(a)
}

/// Whether every item of `items` is equivalent to `core`, in the direction
/// that the capability flags select: items to the core's time where the class
/// is cosynchronizable, else the core to each item's time where it is
/// synchronizable. A class that declares neither cannot be checked and fails.
pub open spec fn core_equivalent<T: Synchronize>(
    center: T,
    items: Seq<T>,
    cosynchronizable: bool,
    synchronizable: bool,
) -> bool {
    if cosynchronizable {
        forall|i: int| 0 <= i < items.len() ==> #[trigger] reaches_core(center, items[i])
    } else if synchronizable {
        forall|i: int| 0 <= i < items.len() ==> #[trigger] core_reaches(center, items[i])
    } else {
        false
    }
}

/// Implemented by efficient synchronizable or cosynchronizable equivalence
/// classes.
///
/// A class produces its items one at a time, in order, and only once. A core
/// is chosen such that every item can easily relate to it; when all items are
/// equivalent to the core, they are said to be core-equivalent, which implies
/// equivalence under equivalence relations. The capability flags belong to
/// the type of the class, not to an instance.
pub trait CoreEquiv: Sized {
    /// The items of the class.
    type Item: Synchronize;

    /// The core of the class.
    spec fn core_of(&self) -> Self::Item;

    /// The items that the class has yet to produce, in production order.
    spec fn pending(&self) -> Seq<Self::Item>;

    /// Whether every item can be synchronized to the time of the core.
    spec fn is_cosynchronizable() -> bool;

    /// Whether the core can be synchronized to the time of every item.
    spec fn is_synchronizable() -> bool;

    /// Produces the next item, if any is left. The core stays the same.
    fn next_item(&mut self) -> (r: Option<Self::Item>)
        ensures
            final(self).core_of() == old(self).core_of(),
            old(self).pending().len() == 0 ==> r is None && final(self).pending() == old(
                self,
            ).pending(),
            old(self).pending().len() > 0 ==> r == Some(old(self).pending()[0])
                && final(self).pending() == old(self).pending().drop_first(),
    ;

    /// Returns the core of the equivalence class.
    fn core_item(&self) -> (c: Self::Item)
        ensures
            c == self.core_of(),
    ;

    /// Returns `true` if the equivalence class is cosynchronizable: any item
    /// can be synchronized to the time of the core.
    fn cosynchronizable() -> (r: bool)
        ensures
            r == Self::is_cosynchronizable(),
    ;

    /// Returns `true` if the equivalence class is synchronizable: the core can
    /// be synchronized to the time of any other item.
    fn synchronizable() -> (r: bool)
        ensures
            r == Self::is_synchronizable(),
    ;

    /// Whether `a` is a member of the equivalence class: the equivalence of
    /// the core and `a`.
    fn member(&self, a: &Self::Item) -> (r: Option<bool>)
        ensures
            r == equiv_of(self.core_of(), *a),
    {
        self.core_item().equiv(a)
    }

    /// Consumes the class and returns `true` if all of its items are
    /// equivalent to the core, `false` otherwise. Stops at the first item that
    /// fails.
    fn check(self) -> (r: bool)
        ensures
            r == core_equivalent(
                self.core_of(),
                self.pending(),
                Self::is_cosynchronizable(),
                Self::is_synchronizable(),
            ),
    {
        let ghost items = self.pending();
        let ghost core0 = self.core_of();
        let mut rest = self;
        let center = rest.core_item();
        if Self::cosynchronizable() {
            let core_time = center.time();
            let ghost mut k: int = 0;
            loop
                invariant
                    0 <= k <= items.len(),
                    items == self.pending(),
                    core0 == self.core_of(),
                    rest.pending() == items.subrange(k, items.len() as int),
                    center == core0,
                    core_time == center.time_of(),
                    Self::is_cosynchronizable(),
                    forall|j: int| 0 <= j < k ==> #[trigger] reaches_core(center, items[j]),
                decreases rest.pending().len(),
            {
                match rest.next_item() {
                    None => {
                        return true;
                    },
                    Some(a) => {
                        assert(a == items[k]);
                        assert(reaches_core(center, a) ==> reaches_core(center, items[k]));
                        match a.synchronize(&core_time) {
                            Some(a2) => {
                                if !center.equals(&a2) {
                                    return false;
                                }
                            },
                            None => {
                                return false;
                            },
                        }
                        proof {
                            k = k + 1;
                        }
                    },
                }
            }
        } else if Self::synchronizable() {
            let ghost mut k: int = 0;
            loop
                invariant
                    0 <= k <= items.len(),
                    items == self.pending(),
                    core0 == self.core_of(),
                    rest.pending() == items.subrange(k, items.len() as int),
                    center == core0,
                    !Self::is_cosynchronizable(),
                    Self::is_synchronizable(),
                    forall|j: int| 0 <= j < k ==> #[trigger] core_reaches(center, items[j]),
                decreases rest.pending().len(),
            {
                match rest.next_item() {
                    None => {
                        return true;
                    },
                    Some(a) => {
                        assert(a == items[k]);
                        assert(core_reaches(center, a) ==> core_reaches(center, items[k]));
                        match center.synchronize(&a.time()) {
                            Some(core2) => {
                                if !core2.equals(&a) {
                                    return false;
                                }
                            },
                            None => {
                                return false;
                            },
                        }
                        proof {
                            k = k + 1;
                        }
                    },
                }
            }
        } else {
            false
        }
    }
}

} // verus!
