use htmlelement::lazy::LazySingletonSlot;
use std::cell::Cell;

#[test]
fn new_slot_is_empty() {
    let slot: LazySingletonSlot<u32> = LazySingletonSlot::new();
    assert_eq!(slot.get(), None);
}

#[test]
fn first_access_fills_the_slot() {
    let mut slot: LazySingletonSlot<u32> = LazySingletonSlot::new();
    assert_eq!(*slot.get_or_init(|| 7), 7);
    assert_eq!(slot.get(), Some(&7));
}

#[test]
fn later_accesses_return_the_first_object() {
    let mut slot: LazySingletonSlot<String> = LazySingletonSlot::new();
    assert_eq!(slot.get_or_init(|| "first".to_string()), "first");
    assert_eq!(slot.get_or_init(|| "second".to_string()), "first");
    assert_eq!(slot.get_or_init(|| "third".to_string()), "first");
}

#[test]
fn factory_runs_exactly_once() {
    let calls = Cell::new(0u32);
    let mut slot: LazySingletonSlot<u32> = LazySingletonSlot::new();
    for _ in 0..5 {
        let value = *slot.get_or_init(|| {
            calls.set(calls.get() + 1);
            40 + calls.get()
        });
        assert_eq!(value, 41);
    }
    assert_eq!(calls.get(), 1);
}

#[test]
fn factory_of_a_filled_slot_is_never_called() {
    let mut slot: LazySingletonSlot<u32> = LazySingletonSlot::new();
    slot.get_or_init(|| 1);
    let value = *slot.get_or_init(|| panic!("the slot is filled"));
    assert_eq!(value, 1);
}
