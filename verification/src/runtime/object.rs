//! What a heap object holds: a property table and one fixed subtype.

use crate::runtime::js_string::JsString;
use crate::runtime::value::{JsValue, Value};
use vstd::prelude::*;

verus! {

/// The primitives that a function object can stand for.
#[derive(Debug, Clone, Copy, PartialEq, Eq, Structural)]
pub enum NativeFunction {
    /// Writes its arguments as one line.
    ConsoleLog,
    /// The square root of its first argument.
    MathSqrt,
    /// The number it was made for, written with as many decimals as its
    /// first argument says.
    ToFixed(u64),
}

/// The subtype of an object with what belongs to it. An object never
/// changes its subtype.
#[derive(Debug)]
pub enum ObjectSubtype {
    RegularObject,
    Function(NativeFunction),
    Array(Vec<JsValue>),
}

/// What the subtype of an object holds.
pub enum Subtype {
    RegularObject,
    Function(NativeFunction),
    Array(Seq<Value>),
}

/// What an object holds: its properties by name, and its subtype.
pub struct Object {
    pub properties: Map<Seq<char>, Value>,
    pub subtype: Subtype,
}

/// The contents of a heap object.
#[derive(Debug)]
pub struct JsObjectContents {
    properties: Vec<(JsString, JsValue)>,
    subtype: ObjectSubtype,
}

/// What a sequence of values holds.
pub open spec fn values(elements: Seq<JsValue>) -> Seq<Value> {
    Seq::new(elements.len(), |i: int| elements[i]@)
}

/// The table that a list of entries stands for: a later entry for a name
/// replaces an earlier one.
pub open spec fn table(entries: Seq<(JsString, JsValue)>) -> Map<Seq<char>, Value>
    decreases entries.len(),
{
    if entries.len() == 0 {
        Map::empty()
    } else {
        table(entries.drop_last()).insert(entries.last().0@, entries.last().1@)
    }
}

/// The last entry for a name decides what the table holds for it.
proof fn lemma_table_last(entries: Seq<(JsString, JsValue)>, key: Seq<char>, i: int)
    requires
        0 <= i < entries.len(),
        entries[i].0@ == key,
        forall|j: int| i < j < entries.len() ==> entries[j].0@ != key,
    ensures
        table(entries).contains_key(key),
        table(entries)[key] == entries[i].1@,
    decreases entries.len(),
{
    if i < entries.len() - 1 {
        lemma_table_last(entries.drop_last(), key, i);
    }
}

/// A name without an entry is not in the table.
proof fn lemma_table_absent(entries: Seq<(JsString, JsValue)>, key: Seq<char>)
    requires
        forall|j: int| 0 <= j < entries.len() ==> entries[j].0@ != key,
    ensures
        !table(entries).contains_key(key),
    decreases entries.len(),
{
    if entries.len() > 0 {
        lemma_table_absent(entries.drop_last(), key);
    }
}

/// Replacing the last entry for a name is storing under that name.
proof fn lemma_table_update(
    entries: Seq<(JsString, JsValue)>,
    i: int,
    entry: (JsString, JsValue),
)
    requires
        0 <= i < entries.len(),
        entries[i].0@ == entry.0@,
        forall|j: int| i < j < entries.len() ==> entries[j].0@ != entry.0@,
    ensures
        table(entries.update(i, entry)) =~= table(entries).insert(entry.0@, entry.1@),
    decreases entries.len(),
{
    let updated = entries.update(i, entry);
    if i < entries.len() - 1 {
        lemma_table_update(entries.drop_last(), i, entry);
        assert(updated.drop_last() =~= entries.drop_last().update(i, entry));
        assert(updated.last() == entries.last());
    } else {
        assert(updated.drop_last() =~= entries.drop_last());
    }
}

impl View for JsObjectContents {
    type V = Object;

    closed spec fn view(&self) -> Object {
        Object {
            properties: table(self.properties@),
            subtype: match self.subtype {
                ObjectSubtype::RegularObject => Subtype::RegularObject,
                ObjectSubtype::Function(function) => Subtype::Function(function),
                ObjectSubtype::Array(elements) => Subtype::Array(values(elements@)),
            },
        }
    }
}

impl JsObjectContents {
    /// A plain object with the given entries. Where a name comes twice,
    /// the later entry stays.
    pub fn from_entries(entries: Vec<(JsString, JsValue)>) -> (contents: Self)
        ensures
            contents@ == (Object { properties: table(entries@), subtype: Subtype::RegularObject }),
    {
        JsObjectContents { properties: entries, subtype: ObjectSubtype::RegularObject }
    }

    /// An array object with the given elements and no properties.
    pub fn new_array(elements: Vec<JsValue>) -> (contents: Self)
        ensures
            contents@ == (Object {
                properties: Map::empty(),
                subtype: Subtype::Array(values(elements@)),
            }),
    {
        JsObjectContents { properties: Vec::new(), subtype: ObjectSubtype::Array(elements) }
    }

    /// A function object for `function`, without properties.
    pub fn new_function(function: NativeFunction) -> (contents: Self)
        ensures
            contents@ == (Object {
                properties: Map::empty(),
                subtype: Subtype::Function(function),
            }),
    {
        JsObjectContents { properties: Vec::new(), subtype: ObjectSubtype::Function(function) }
    }

    /// Where the last entry for `name` stands, if there is one.
    fn find(&self, name: &JsString) -> (place: Option<usize>)
        ensures
            match place {
                Some(i) => i < self.properties.len() && self.properties[i as int].0@ == name@
                    && forall|j: int|
                    i < j < self.properties.len() ==> self.properties[j].0@ != name@,
                None => forall|j: int|
                    0 <= j < self.properties.len() ==> self.properties[j].0@ != name@,
            },
    {
        let mut i: usize = self.properties.len();
        while i > 0
            invariant
                i <= self.properties.len(),
                forall|j: int| i <= j < self.properties.len() ==> self.properties[j].0@ != name@,
            decreases i,
        {
            i -= 1;
            if self.properties[i].0 == *name {
                return Some(i);
            }
        }
        None
    }

    /// The property `name`: what was last stored under it, or the undefined
    /// value where nothing was.
    pub fn property(&self, name: &JsString) -> (value: JsValue)
        ensures
            value@ == if self@.properties.contains_key(name@) {
                self@.properties[name@]
            } else {
                Value::Undefined
            },
    {
        match self.find(name) {
            Some(i) => {
                proof {
                    lemma_table_last(self.properties@, name@, i as int);
                }
                self.properties[i].1.clone()
            },
            None => {
                proof {
                    lemma_table_absent(self.properties@, name@);
                }
                JsValue::Undefined
            },
        }
    }

    /// Stores `value` under `name`, in place of what was there.
    pub fn set_property(&mut self, name: JsString, value: JsValue)
        ensures
            final(self)@ == (Object {
                properties: old(self)@.properties.insert(name@, value@),
                subtype: old(self)@.subtype,
            }),
    {
        match self.find(&name) {
            Some(i) => {
                proof {
                    lemma_table_update(self.properties@, i as int, (name, value));
                }
                self.properties[i] = (name, value);
            },
            None => {
                proof {
                    assert(self.properties@.push((name, value)).drop_last() =~= self.properties@);
                }
                self.properties.push((name, value));
            },
        }
    }

    /// The function that the object stands for, if it is a function object.
    pub fn function(&self) -> (function: Option<NativeFunction>)
        ensures
            function == match self@.subtype {
                Subtype::Function(f) => Some(f),
                _ => None,
            },
    {
        match &self.subtype {
            ObjectSubtype::Function(f) => Some(*f),
            _ => None,
        }
    }

    /// The number of elements, if the object is an array.
    pub fn length(&self) -> (length: Option<usize>)
        ensures
            match self@.subtype {
                Subtype::Array(elements) => length == Some(elements.len() as usize)
                    && elements.len() <= usize::MAX,
                _ => length is None,
            },
    {
        match &self.subtype {
            ObjectSubtype::Array(elements) => Some(elements.len()),
            _ => None,
        }
    }

    /// The element at `index`, if the object is an array that long.
    pub fn element(&self, index: usize) -> (value: Option<JsValue>)
        ensures
            match self@.subtype {
                Subtype::Array(elements) if index < elements.len() => value matches Some(v) && v@
                    == elements[index as int],
                _ => value is None,
            },
    {
        match &self.subtype {
            ObjectSubtype::Array(elements) => {
                if index < elements.len() {
                    Some(elements[index].clone())
                } else {
                    None
                }
            },
            _ => None,
        }
    }

    /// Puts `value` at `index`, if the object is an array that long, and
    /// says whether it did. An array never grows.
    pub fn set_element(&mut self, index: usize, value: JsValue) -> (stored: bool)
        ensures
            match old(self)@.subtype {
                Subtype::Array(elements) if index < elements.len() => stored && final(self)@ == (
                Object {
                    properties: old(self)@.properties,
                    subtype: Subtype::Array(elements.update(index as int, value@)),
                }),
                _ => !stored && final(self)@ == old(self)@,
            },
    {
        match &mut self.subtype {
            ObjectSubtype::Array(elements) => {
                if index < elements.len() {
                    let ghost before = elements@;
                    elements[index] = value;
                    assert(values(elements@) =~= values(before).update(index as int, value@));
                    true
                } else {
                    false
                }
            },
            _ => false,
        }
    }
}

} // verus!
