//! Properties of three-valued equivalence and of core-equivalence checks.

use vstd::prelude::*;

use crate::core_equiv::{core_equivalent, CoreEquiv};
use crate::synchronize::{equiv_of, Synchronize};

verus! {

/// An item is equivalent to itself exactly when synchronizing it to its own
/// time gives it back unchanged.
pub proof fn lemma_equiv_reflexive<T: Synchronize>(a: T)
    ensures
        equiv_of(a, a) == Some(true) <==> a.synchronized(a.time_of()) == Some(a),
{
}

/// Where `b` can be brought to the time of `a`, the equivalence of `a` and `b`
/// is the comparison of `a` with that synchronized `b`, whatever the reverse
/// direction would give.
pub proof fn lemma_equiv_prefers_first_time<T: Synchronize>(a: T, b: T)
    requires
        b.synchronized(a.time_of()) is Some,
    ensures
        equiv_of(a, b) == Some(a == b.synchronized(a.time_of())->0),
{
}

/// Where `b` cannot be brought to the time of `a` but `a` can be brought to
/// the time of `b`, the equivalence is the comparison made at the time of `b`.
pub proof fn lemma_equiv_falls_back_to_second_time<T: Synchronize>(a: T, b: T)
    requires
        b.synchronized(a.time_of()) is None,
        a.synchronized(b.time_of()) is Some,
    ensures
        equiv_of(a, b) == Some(a.synchronized(b.time_of())->0 == b),
{
}

/// Two items neither of which can be brought to the time of the other are
/// incomparable: their equivalence is `None`, not `Some(false)`.
pub proof fn lemma_equiv_incomparable<T: Synchronize>(a: T, b: T)
    requires
        b.synchronized(a.time_of()) is None,
        a.synchronized(b.time_of()) is None,
    ensures
        equiv_of(a, b) is None,
{
}

/// A single item that does not synchronize to the core in the direction the
/// flags select makes the whole class fail its check.
pub proof fn lemma_one_mismatch_fails<T: Synchronize>(
    center: T,
    items: Seq<T>,
    cosynchronizable: bool,
    synchronizable: bool,
    i: int,
)
    requires
        0 <= i < items.len(),
        cosynchronizable ==> items[i].synchronized(center.time_of()) != Some(center),
        !cosynchronizable ==> center.synchronized(items[i].time_of()) != Some(items[i]),
    ensures
        !core_equivalent(center, items, cosynchronizable, synchronizable),
{
    if cosynchronizable {
        assert(!crate::core_equiv::reaches_core(center, items[i]));
    } else if synchronizable {
        assert(!crate::core_equiv::core_reaches(center, items[i]));
    }
}

/// A class that declares neither capability fails its check, whatever its
/// items are.
pub proof fn lemma_no_capability_fails<T: Synchronize>(center: T, items: Seq<T>)
    ensures
        !core_equivalent(center, items, false, false),
{
}

/// Every item of a class that passes its check is a member of the class,
/// unless the class is checked core-to-item and the item, brought to the
/// core's time, becomes something other than the core (membership tries that
/// direction first).
pub proof fn lemma_member_of_passing_class<T: Synchronize>(
    center: T,
    items: Seq<T>,
    cosynchronizable: bool,
    synchronizable: bool,
    i: int,
)
    requires
        core_equivalent(center, items, cosynchronizable, synchronizable),
        0 <= i < items.len(),
        match items[i].synchronized(center.time_of()) {
            Some(x) => x == center,
            None => true,
        },
    ensures
        equiv_of(center, items[i]) == Some(true),
{
    if cosynchronizable {
        assert(crate::core_equiv::reaches_core(center, items[i]));
    } else {
        assert(crate::core_equiv::core_reaches(center, items[i]));
    }
}

/// The verdict of a check depends on the core, the class's flags and the
/// items still to come alone: checking again takes a fresh class that holds
/// the same items.
pub proof fn lemma_fresh_class_same_verdict<C: CoreEquiv>(first: C, fresh: C)
    requires
        fresh.core_of() == first.core_of(),
        fresh.pending() == first.pending(),
    ensures
        core_equivalent(
            fresh.core_of(),
            fresh.pending(),
            C::is_cosynchronizable(),
            C::is_synchronizable(),
        ) == core_equivalent(
            first.core_of(),
            first.pending(),
            C::is_cosynchronizable(),
            C::is_synchronizable(),
        ),
{
}

} // verus!
