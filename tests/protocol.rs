use sync::stamped::{Stamp, StampClass};
use sync::{CoreEquiv, Synchronize};

type CoClass = StampClass<true, false>;
type SyClass = StampClass<false, true>;
type BothClass = StampClass<true, true>;
type NoClass = StampClass<false, false>;

fn stamp(branch: u8, at: u32, value: i64) -> Stamp {
    Stamp::new(branch, at, value)
}

fn early_items(value: i64) -> Vec<Stamp> {
    vec![
        stamp(1, 1, value),
        stamp(1, 3, value),
        stamp(1, 9, value),
        stamp(1, 4, value),
        stamp(1, 10, value),
    ]
}

#[test]
fn stamp_synchronizes_forward_on_its_branch() {
    let a = stamp(1, 3, 42);
    assert_eq!(a.time(), (1, 3));
    assert_eq!(a.synchronize(&(1, 8)), Some(stamp(1, 8, 42)));
    assert_eq!(a.synchronize(&(1, 3)), Some(a));
    assert_eq!(a.synchronize(&(1, 2)), None);
    assert_eq!(a.synchronize(&(2, 8)), None);
    assert!(a.can_synchronize(&(1, 8)));
    assert!(!a.can_synchronize(&(1, 2)));
    assert!(a.equals(&stamp(1, 3, 42)));
    assert!(!a.equals(&stamp(1, 3, 41)));
}

#[test]
fn equiv_is_reflexive() {
    for a in [stamp(0, 0, 0), stamp(1, 7, -3), stamp(255, u32::MAX, i64::MAX)] {
        assert_eq!(a.equiv(&a), Some(true));
    }
}

#[test]
fn equiv_brings_second_to_first_time_first() {
    let a = stamp(1, 5, 42);
    let b = stamp(1, 3, 42);
    assert!(b.can_synchronize(&a.time()));
    assert!(!a.can_synchronize(&b.time()));
    let b2 = b.synchronize(&a.time()).unwrap();
    assert_eq!(b2, stamp(1, 5, 42));
    assert_eq!(a.equiv(&b), Some(a == b2));
    assert_eq!(a.equiv(&b), Some(true));
    let c = stamp(1, 3, 41);
    assert_eq!(a.equiv(&c), Some(false));
}

#[test]
fn equiv_falls_back_to_second_time() {
    let a = stamp(1, 3, 42);
    let b = stamp(1, 5, 42);
    assert!(!b.can_synchronize(&a.time()));
    assert!(a.can_synchronize(&b.time()));
    assert_eq!(a.equiv(&b), Some(true));
    assert_eq!(a.equiv(&stamp(1, 5, 0)), Some(false));
}

#[test]
fn equiv_of_unreachable_items_is_none() {
    let a = stamp(1, 3, 42);
    let b = stamp(2, 3, 42);
    assert!(!a.can_synchronize(&b.time()));
    assert!(!b.can_synchronize(&a.time()));
    assert_eq!(a.equiv(&b), None);
    assert_eq!(b.equiv(&a), None);
}

#[test]
fn check_passes_for_five_equal_items() {
    assert!(CoClass::cosynchronizable());
    assert!(!CoClass::synchronizable());
    assert!(CoClass::new(stamp(1, 10, 7), early_items(7)).check());
}

#[test]
fn check_fails_on_one_mismatch() {
    let mut items = early_items(7);
    items[2] = stamp(1, 9, 8);
    assert!(!CoClass::new(stamp(1, 10, 7), items).check());
}

#[test]
fn check_fails_on_item_that_cannot_reach_core() {
    let mut items = early_items(7);
    items[1] = stamp(2, 3, 7);
    assert!(!CoClass::new(stamp(1, 10, 7), items).check());
    // An item later than the core cannot go back to its time.
    let mut items = early_items(7);
    items[4] = stamp(1, 11, 7);
    assert!(!CoClass::new(stamp(1, 10, 7), items).check());
}

#[test]
fn check_of_empty_class_passes() {
    assert!(CoClass::new(stamp(1, 10, 7), vec![]).check());
    assert!(SyClass::new(stamp(1, 10, 7), vec![]).check());
}

#[test]
fn check_without_capability_fails() {
    assert!(!NoClass::cosynchronizable());
    assert!(!NoClass::synchronizable());
    assert!(!NoClass::new(stamp(1, 10, 7), early_items(7)).check());
    assert!(!NoClass::new(stamp(1, 10, 7), vec![stamp(1, 10, 7)]).check());
    assert!(!NoClass::new(stamp(1, 10, 7), vec![]).check());
}

#[test]
fn check_synchronizable_class() {
    assert!(SyClass::new(stamp(1, 1, 7), early_items(7)).check());
    let mut items = early_items(7);
    items[3] = stamp(1, 4, 6);
    assert!(!SyClass::new(stamp(1, 1, 7), items).check());
    // The core cannot go back to an item that is earlier than itself.
    assert!(!SyClass::new(stamp(1, 2, 7), early_items(7)).check());
}

#[test]
fn check_prefers_cosynchronizable_direction() {
    // Items later than the core cannot reach its time, although the core can
    // reach theirs: with both flags the item-to-core direction decides.
    let items = vec![stamp(1, 2, 7), stamp(1, 3, 7)];
    assert!(SyClass::new(stamp(1, 1, 7), items.clone()).check());
    assert!(!BothClass::new(stamp(1, 1, 7), items.clone()).check());
    assert!(BothClass::new(stamp(1, 3, 7), items).check());
}

#[test]
fn member_agrees_with_passing_class() {
    let items = early_items(7);
    let class = CoClass::new(stamp(1, 10, 7), items.clone());
    assert_eq!(class.core_item(), stamp(1, 10, 7));
    for a in &items {
        assert_eq!(class.member(a), Some(true));
    }
    assert_eq!(class.member(&stamp(1, 4, 8)), Some(false));
    assert_eq!(class.member(&stamp(3, 4, 7)), None);
    assert!(class.check());
}

#[test]
fn member_of_synchronizable_class() {
    let items = early_items(7);
    let class = SyClass::new(stamp(1, 1, 7), items.clone());
    for a in &items {
        assert_eq!(class.member(a), Some(true));
    }
    assert_eq!(class.member(&stamp(0, 4, 7)), None);
    assert!(class.check());
}

#[test]
fn next_item_produces_items_in_order_once() {
    let mut class = CoClass::new(stamp(1, 10, 7), vec![stamp(1, 1, 7), stamp(1, 2, 8)]);
    assert_eq!(class.next_item(), Some(stamp(1, 1, 7)));
    assert_eq!(class.next_item(), Some(stamp(1, 2, 8)));
    assert_eq!(class.next_item(), None);
    assert_eq!(class.next_item(), None);
    assert_eq!(class.core_item(), stamp(1, 10, 7));
}

#[test]
fn fresh_sequence_gives_same_verdict() {
    let center = stamp(1, 10, 7);
    let mut items = early_items(7);
    items[0] = stamp(1, 1, 0);
    let mut class = CoClass::new(center, items.clone());
    assert_eq!(class.next_item(), Some(stamp(1, 1, 0)));
    // What was produced is gone: the class checks only the items still to come.
    assert!(class.check());
    assert!(!CoClass::new(center, items.clone()).check());
    assert!(!CoClass::new(center, items).check());
}
