//! The cell that holds a heap object.
//!
//! A cell owns its value. Reading takes the cell shared, writing takes it
//! exclusively, so the borrow rules that a run-time checked cell would
//! enforce while the program runs are enforced when it is compiled.

use vstd::prelude::*;

verus! {

/// A cell around one value.
pub struct JsCell<T> {
    value: T,
}

/// Exclusive access to the value of a [`JsCell`], for as long as the guard
/// lives. What the guard's reference holds when the guard goes away is what
/// the cell holds from then on.
pub struct RefMut<'a, T> {
    pub value: &'a mut T,
}

impl<T> JsCell<T> {
    /// The value in the cell.
    pub closed spec fn view(&self) -> T {
        self.value
    }

    /// A cell that holds `value`.
    pub fn new(value: T) -> (cell: Self)
        ensures
            cell@ == value,
    {
        JsCell { value }
    }

    /// The value, to read.
    pub fn borrow(&self) -> (value: &T)
        ensures
            *value == self@,
    {
        &self.value
    }

    /// The value, to change through the guard.
    pub fn borrow_mut<'a>(&'a mut self) -> (guard: RefMut<'a, T>)
        ensures
            guard@ == old(self)@,
            final(self)@ == *final(guard.value),
    {
        RefMut { value: &mut self.value }
    }
}

impl<'a, T> RefMut<'a, T> {
    /// The value as it is now.
    pub open spec fn view(&self) -> T {
        *self.value
    }

    /// The value, to read.
    pub fn deref(&self) -> (value: &T)
        ensures
            *value == self@,
    {
        &*self.value
    }

    /// The value, to change in place.
    pub fn deref_mut(&mut self) -> (value: &mut T)
        ensures
            *value == old(self)@,
            final(self)@ == *final(value),
            *final(final(self).value) == *final(old(self).value),
    {
        &mut *self.value
    }
}

} // verus!
