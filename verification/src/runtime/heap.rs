//! The heap: every object of a running program, each at a place of its own
//! that never changes. A value names an object by its place, so all the
//! values that name one object see what any of them stores in it.

use crate::runtime::js_cell::JsCell;
use crate::runtime::js_string::JsString;
use crate::runtime::object::{JsObjectContents, Object, Subtype};
use crate::runtime::value::{JsObject, JsValue};
use vstd::prelude::*;

verus! {

/// The objects of a program, in the order in which they were made.
pub struct Heap {
    objects: Vec<JsCell<JsObjectContents>>,
}

impl View for Heap {
    type V = Seq<Object>;

    closed spec fn view(&self) -> Seq<Object> {
        Seq::new(self.objects@.len(), |i: int| self.objects@[i]@@)
    }
}

impl Heap {
    /// A heap without objects.
    pub fn new() -> (heap: Heap)
        ensures
            heap@ == Seq::<Object>::empty(),
    {
        let heap = Heap { objects: Vec::new() };
        assert(heap@ =~= Seq::<Object>::empty());
        heap
    }

    /// The number of objects.
    pub fn len(&self) -> (n: usize)
        ensures
            n == self@.len(),
    {
        self.objects.len()
    }

    /// Puts a new object on the heap and gives its handle. The objects
    /// that were there stay as they are.
    pub fn allocate(&mut self, contents: JsObjectContents) -> (handle: JsObject)
        ensures
            final(self)@ == old(self)@.push(contents@),
            handle.index == old(self)@.len(),
    {
        let index = self.objects.len();
        self.objects.push(JsCell::new(contents));
        assert(self@ =~= old(self)@.push(contents@));
        JsObject { index }
    }

    /// The object that `handle` names, to read; none where the handle names
    /// no object of this heap.
    pub fn object(&self, handle: JsObject) -> (contents: Option<&JsObjectContents>)
        ensures
            match contents {
                Some(c) => handle.index < self@.len() && c@ == self@[handle.index as int],
                None => handle.index >= self@.len(),
            },
    {
        if handle.index < self.objects.len() {
            Some(self.objects[handle.index].borrow())
        } else {
            None
        }
    }

    /// Stores `value` under `name` in the object at `index`.
    pub(crate) fn store_property(&mut self, index: usize, name: JsString, value: JsValue)
        requires
            index < old(self)@.len(),
        ensures
            final(self)@ == old(self)@.update(
                index as int,
                Object {
                    properties: old(self)@[index as int].properties.insert(name@, value@),
                    subtype: old(self)@[index as int].subtype,
                },
            ),
    {
        let mut guard = self.objects[index].borrow_mut();
        guard.deref_mut().set_property(name, value);
        assert(self@ =~= old(self)@.update(
            index as int,
            Object {
                properties: old(self)@[index as int].properties.insert(name@, value@),
                subtype: old(self)@[index as int].subtype,
            },
        ));
    }

    /// Puts `value` at `position` of the array at `index`, and says whether
    /// there is such a position.
    pub(crate) fn store_element(&mut self, index: usize, position: usize, value: JsValue) -> (
        stored: bool)
        requires
            index < old(self)@.len(),
        ensures
            match old(self)@[index as int].subtype {
                Subtype::Array(elements) if position < elements.len() => stored && final(self)@
                    == old(self)@.update(
                    index as int,
                    Object {
                        properties: old(self)@[index as int].properties,
                        subtype: Subtype::Array(elements.update(position as int, value@)),
                    },
                ),
                _ => !stored && final(self)@ == old(self)@,
            },
    {
        let mut guard = self.objects[index].borrow_mut();
        let stored = guard.deref_mut().set_element(position, value);
        assert(self@ =~= old(self)@.update(index as int, self@[index as int]));
        stored
    }
}

} // verus!
