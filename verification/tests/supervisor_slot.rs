//! The shared slot holding the sidecar handle.

use sidecar_core::slot::HandleSlot;

#[test]
fn store_then_take_empties_the_slot() {
    let mut slot: HandleSlot<u32> = HandleSlot::empty();
    slot.store(7);
    assert!(slot.is_occupied());
    let taken = slot.take();
    assert_eq!(taken, Some(7));
    assert!(!slot.is_occupied());
}

#[test]
fn second_take_is_a_no_op() {
    let mut slot: HandleSlot<String> = HandleSlot::empty();
    slot.store("child".to_owned());
    assert_eq!(slot.take(), Some("child".to_owned()));
    assert_eq!(slot.take(), None);
    assert_eq!(slot.take(), None);
}

#[test]
fn store_replaces_the_occupant() {
    let mut slot: HandleSlot<u32> = HandleSlot::empty();
    slot.store(1);
    slot.store(2);
    assert_eq!(slot.take(), Some(2));
}

#[test]
fn empty_slot_starts_unoccupied() {
    let slot: HandleSlot<u32> = HandleSlot::empty();
    assert!(!slot.is_occupied());
}
