//! A slot for an object that is made when it is first asked for and stays the
//! same object from then on.

use vstd::prelude::*;

verus! {

/// A slot that is empty until its object is first asked for.
pub struct LazySingletonSlot<T> {
    value: Option<T>,
}

impl<T> View for LazySingletonSlot<T> {
    type V = Option<T>;

    closed spec fn view(&self) -> Option<T> {
        self.value
    }
}

impl<T> LazySingletonSlot<T> {
    /// An empty slot.
    pub fn new() -> (slot: Self)
        ensures
            slot@ is None,
    {
        LazySingletonSlot { value: None }
    }

    /// The object in the slot, if it was made already.
    pub fn get(&self) -> (value: Option<&T>)
        ensures
            match value {
                Some(v) => self@ == Some(*v),
                None => self@ is None,
            },
    {
        self.value.as_ref()
    }

    /// The object in the slot. An empty slot is first filled with what
    /// `factory` makes; a filled slot is left as it is, and `factory`, which
    /// then need not even be callable, is not called.
    pub fn get_or_init<F: FnOnce() -> T>(&mut self, factory: F) -> (value: &T)
        requires
            old(self)@ is None ==> factory.requires(()),
        ensures
            final(self)@ == Some(*value),
            old(self)@ is Some ==> final(self)@ == old(self)@,
            old(self)@ is None ==> factory.ensures((), *value),
    {
        if self.value.is_none() {
            self.value = Some(factory());
        }
        self.value.as_ref().unwrap()
    }
}

} // verus!
