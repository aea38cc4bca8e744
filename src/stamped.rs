//! A small synchronizable domain: values stamped with a branch and a moment.
//!
//! A stamp moves forward in time along its own branch, keeping its value; it
//! cannot move backward, nor to another branch. Stamps on different branches
//! are therefore incomparable.

use std::collections::VecDeque;

use vstd::prelude::*;

use crate::core_equiv::CoreEquiv;
use crate::synchronize::Synchronize;

verus! {

/// A value at a moment of a branch.
#[derive(Clone, Copy, Debug, PartialEq, Eq, Structural)]
pub struct Stamp {
    pub branch: u8,
    pub at: u32,
    pub value: i64,
}

impl Stamp {
    /// The stamp of `value` at moment `at` of `branch`.
    pub fn new(branch: u8, at: u32, value: i64) -> (r: Stamp)
        ensures
            r == (Stamp { branch, at, value }),
    {
        Stamp { branch, at, value }
    }
}

impl Synchronize for Stamp {
    /// A branch and a moment on it.
    type Time = (u8, u32);

    open spec fn time_of(&self) -> (u8, u32) {
        (self.branch, self.at)
    }

    open spec fn synchronized(&self, t: (u8, u32)) -> Option<Stamp> {
        if t.0 == self.branch && t.1 >= self.at {
            Some(Stamp { branch: self.branch, at: t.1, value: self.value })
        } else {
            None
        }
    }

    fn time(&self) -> (u8, u32) {
        (self.branch, self.at)
    }

    fn synchronize(&self, time: &(u8, u32)) -> Option<Stamp> {
        if time.0 == self.branch && time.1 >= self.at {
            Some(Stamp { branch: self.branch, at: time.1, value: self.value })
        } else {
            None
        }
    }

    fn equals(&self, other: &Stamp) -> bool {
        *self == *other
    }
}

/// A one-shot sequence of stamps with a core. `CO` and `SY` are the class's
/// capability flags: cosynchronizable and synchronizable.
pub struct StampClass<const CO: bool, const SY: bool> {
    center: Stamp,
    items: VecDeque<Stamp>,
}

impl<const CO: bool, const SY: bool> StampClass<CO, SY> {
    /// The class with core `center` that produces `items` in order.
    pub fn new(center: Stamp, items: Vec<Stamp>) -> (r: Self)
        ensures
            r.core_of() == center,
            r.pending() == items@,
    {
        let mut queue: VecDeque<Stamp> = VecDeque::new();
        let mut i: usize = 0;
        while i < items.len()
            invariant
                i <= items.len(),
                queue@ == items@.subrange(0, i as int),
            decreases items.len() - i,
        {
            queue.push_back(items[i]);
            i = i + 1;
        }
        assert(queue@ == items@);
        StampClass { center, items: queue }
    }
}

impl<const CO: bool, const SY: bool> CoreEquiv for StampClass<CO, SY> {
    type Item = Stamp;

    closed spec fn core_of(&self) -> Stamp {
        self.center
    }

    closed spec fn pending(&self) -> Seq<Stamp> {
        self.items@
    }

    open spec fn is_cosynchronizable() -> bool {
        CO
    }

    open spec fn is_synchronizable() -> bool {
        SY
    }

    fn next_item(&mut self) -> Option<Stamp> {
        self.items.pop_front()
    }

    fn core_item(&self) -> Stamp {
        self.center
    }

    fn cosynchronizable() -> bool {
        CO
    }

    fn synchronizable() -> bool {
        SY
    }
}

} // verus!
