//! Property access on dynamic values, and the making of objects.

use crate::runtime::heap::Heap;
use crate::runtime::js_string::JsString;
use crate::runtime::number::{is_negative, natural_value, rounded, to_index};
use crate::runtime::object::{table, values, JsObjectContents, NativeFunction, Object, Subtype};
use crate::runtime::value::{is_text_of, text_of, Fault, JsValue, Value};
use crate::text::same_text;
use vstd::prelude::*;

verus! {

/// What a property read comes to.
pub enum Read {
    /// A value that the receiver holds.
    Value(Value),
    /// The length of an array: the number that is this natural number,
    /// rounded to fifty-three significant bits where it has more.
    Length(nat),
    /// A new function object that writes this number with a given number of
    /// decimals.
    ToFixed(u64),
}

/// Whether an access to `name` of `receiver` goes by the text of `name`:
/// it does on every object but an array.
pub open spec fn goes_by_text(heap: Seq<Object>, receiver: Value) -> bool {
    receiver matches Value::Object(place) && place < heap.len() && !(
    heap[place as int].subtype is Array)
}

/// Whether `text` is the text of `name` as far as an access to `name` of
/// `receiver` depends on it: the text of a number, which `format_number`
/// writes, counts only where the access goes by text.
pub open spec fn is_key_text<F: Fn(u64) -> JsString>(
    heap: Seq<Object>,
    receiver: Value,
    name: Value,
    format_number: F,
    text: Seq<char>,
) -> bool {
    if name is Number {
        goes_by_text(heap, receiver) ==> exists|written: JsString|
            is_text_of(name, format_number, written) && written@ == text
    } else {
        text == text_of(name)
    }
}

/// Whether `format_number` writes every number in one way: whatever it may
/// return for a number holds the same text. Under this, an access by a
/// number goes to the same property every time.
pub open spec fn writes_one_text<F: Fn(u64) -> JsString>(format_number: F) -> bool {
    forall|bits: u64, one: JsString, other: JsString|
        #![trigger format_number.ensures((bits,), one), format_number.ensures((bits,), other)]
        format_number.ensures((bits,), one) && format_number.ensures((bits,), other) ==> one@
            == other@
}

/// Reading the property `name` of `receiver`, where `name_text` is the
/// text of `name`.
///
/// The undefined value has no properties: reading one is a fault, whatever
/// the name. An array has its elements, by index, and its length, which is
/// derived from the elements; an index has to be a natural number below the
/// length. Any other object has what was stored under the text of the name,
/// and the undefined value where nothing was. A number has `toFixed`.
pub open spec fn read_property(
    heap: Seq<Object>,
    receiver: Value,
    name: Value,
    name_text: Seq<char>,
) -> Result<Read, Fault> {
    match receiver {
        Value::Undefined => Err(Fault::PropertyOfUndefined),
        Value::Object(place) => if place >= heap.len() {
            Err(Fault::DanglingReference)
        } else {
            let object = heap[place as int];
            match object.subtype {
                Subtype::Array(elements) => match name {
                    Value::Number(bits) => match natural_value(bits) {
                        Some(i) => if i < elements.len() {
                            Ok(Read::Value(elements[i as int]))
                        } else {
                            Err(Fault::InvalidIndex)
                        },
                        None => Err(Fault::InvalidIndex),
                    },
                    Value::String(s) => if s == "length"@ {
                        Ok(Read::Length(elements.len()))
                    } else {
                        Err(Fault::UnsupportedArrayKey)
                    },
                    _ => Err(Fault::UnsupportedArrayKey),
                },
                _ => Ok(
                    Read::Value(
                        if object.properties.contains_key(name_text) {
                            object.properties[name_text]
                        } else {
                            Value::Undefined
                        },
                    ),
                ),
            }
        },
        Value::Number(number) => match name {
            Value::String(s) => if s == "toFixed"@ {
                Ok(Read::ToFixed(number))
            } else {
                Err(Fault::UnsupportedProperty)
            },
            _ => Err(Fault::UnsupportedProperty),
        },
        _ => Err(Fault::UnsupportedReceiver),
    }
}

/// Whether `result` and the heap `after` are what the read `read` comes to
/// on the heap `before`. Only a read of `toFixed` changes the heap: it puts
/// the new function object at the end.
pub open spec fn is_read(
    read: Result<Read, Fault>,
    before: Seq<Object>,
    after: Seq<Object>,
    result: Result<JsValue, Fault>,
) -> bool {
    match read {
        Err(fault) => result matches Err(f) && f == fault && after == before,
        Ok(Read::Value(value)) => result matches Ok(v) && v@ == value && after == before,
        Ok(Read::Length(n)) => result matches Ok(JsValue::Number(bits)) && natural_value(bits)
            == Some(rounded(n)) && !is_negative(bits) && after == before,
        Ok(Read::ToFixed(number)) => result matches Ok(JsValue::Object(handle)) && handle.index
            == before.len() && after == before.push(
            Object {
                properties: Map::empty(),
                subtype: Subtype::Function(NativeFunction::ToFixed(number)),
            },
        ),
    }
}

/// Storing `value` as the property `name` of `receiver`, where `name_text`
/// is the text of `name`: the heap afterwards.
///
/// An array takes a value at an index below its length and nothing else: it
/// does not grow, and its length cannot be stored. Any other object takes
/// the value under the text of the name, in place of what was there. Only
/// objects take values.
pub open spec fn write_property(
    heap: Seq<Object>,
    receiver: Value,
    name: Value,
    name_text: Seq<char>,
    value: Value,
) -> Result<Seq<Object>, Fault> {
    match receiver {
        Value::Object(place) => if place >= heap.len() {
            Err(Fault::DanglingReference)
        } else {
            let object = heap[place as int];
            match object.subtype {
                Subtype::Array(elements) => match name {
                    Value::Number(bits) => match natural_value(bits) {
                        Some(i) => if i < elements.len() {
                            Ok(
                                heap.update(
                                    place as int,
                                    Object {
                                        properties: object.properties,
                                        subtype: Subtype::Array(elements.update(i as int, value)),
                                    },
                                ),
                            )
                        } else {
                            Err(Fault::InvalidIndex)
                        },
                        None => Err(Fault::InvalidIndex),
                    },
                    _ => Err(Fault::UnsupportedArrayKey),
                },
                _ => Ok(
                    heap.update(
                        place as int,
                        Object {
                            properties: object.properties.insert(name_text, value),
                            subtype: object.subtype,
                        },
                    ),
                ),
            }
        },
        _ => Err(Fault::UnsupportedReceiver),
    }
}

/// Whether `result` and the heap `after` are what the store `write` comes
/// to on the heap `before`. A store that faults leaves the heap as it was.
pub open spec fn is_written(
    write: Result<Seq<Object>, Fault>,
    before: Seq<Object>,
    after: Seq<Object>,
    result: Result<(), Fault>,
) -> bool {
    match write {
        Ok(heap) => result is Ok && after == heap,
        Err(fault) => result matches Err(f) && f == fault && after == before,
    }
}

impl JsValue {
    /// A new plain object with the given entries. Where a name comes twice,
    /// the later entry stays.
    pub fn from_entries(heap: &mut Heap, entries: Vec<(JsString, JsValue)>) -> (object: JsValue)
        ensures
            object matches JsValue::Object(handle) && handle.index == old(heap)@.len(),
            final(heap)@ == old(heap)@.push(
                Object { properties: table(entries@), subtype: Subtype::RegularObject },
            ),
    {
        JsValue::Object(heap.allocate(JsObjectContents::from_entries(entries)))
    }

    /// A new array with the given elements.
    pub fn new_array(heap: &mut Heap, elements: Vec<JsValue>) -> (object: JsValue)
        ensures
            object matches JsValue::Object(handle) && handle.index == old(heap)@.len(),
            final(heap)@ == old(heap)@.push(
                Object { properties: Map::empty(), subtype: Subtype::Array(values(elements@)) },
            ),
    {
        JsValue::Object(heap.allocate(JsObjectContents::new_array(elements)))
    }

    /// A new function object for `function`.
    pub fn new_function(heap: &mut Heap, function: NativeFunction) -> (object: JsValue)
        ensures
            object matches JsValue::Object(handle) && handle.index == old(heap)@.len(),
            final(heap)@ == old(heap)@.push(
                Object { properties: Map::empty(), subtype: Subtype::Function(function) },
            ),
    {
        JsValue::Object(heap.allocate(JsObjectContents::new_function(function)))
    }

    /// Reads the property `name`, and tells under which text it looked.
    fn read<F: Fn(u64) -> JsString>(
        &self,
        heap: &mut Heap,
        name: JsValue,
        format_number: F,
    ) -> (out: (Result<JsValue, Fault>, Ghost<Seq<char>>))
        requires
            forall|bits: u64| format_number.requires((bits,)),
        ensures
            is_key_text(old(heap)@, self@, name@, format_number, out.1@),
            is_read(
                read_property(old(heap)@, self@, name@, out.1@),
                old(heap)@,
                final(heap)@,
                out.0,
            ),
    {
        let ghost plain = text_of(name@);
        match self {
            JsValue::Undefined => (Err(Fault::PropertyOfUndefined), Ghost(plain)),
            JsValue::Object(handle) => {
                let obj = match heap.object(*handle) {
                    Some(obj) => obj,
                    None => {
                        return (Err(Fault::DanglingReference), Ghost(plain));
                    },
                };
                if let Some(length) = obj.length() {
                    let result = match name {
                        JsValue::Number(index) => match to_index(index) {
                            Some(i) => match obj.element(i) {
                                Some(element) => Ok(element),
                                None => Err(Fault::InvalidIndex),
                            },
                            None => Err(Fault::InvalidIndex),
                        },
                        JsValue::String(s) => {
                            if same_text(s.as_str(), "length") {
                                Ok(JsValue::from_usize(length))
                            } else {
                                Err(Fault::UnsupportedArrayKey)
                            }
                        },
                        _ => Err(Fault::UnsupportedArrayKey),
                    };
                    return (result, Ghost(plain));
                }
                let key = name.to_js_string(format_number);
                (Ok(obj.property(&key)), Ghost(key@))
            },
            JsValue::Number(num) => {
                let result = match &name {
                    JsValue::String(prop) => {
                        if same_text(prop.as_str(), "toFixed") {
                            Ok(JsValue::new_function(heap, NativeFunction::ToFixed(*num)))
                        } else {
                            Err(Fault::UnsupportedProperty)
                        }
                    },
                    _ => Err(Fault::UnsupportedProperty),
                };
                (result, Ghost(plain))
            },
            _ => (Err(Fault::UnsupportedReceiver), Ghost(plain)),
        }
    }

    /// Reads the property `name`. Where the name is a number and the
    /// receiver an object that is no array, `format_number` writes the
    /// number, and the property is looked up under what it wrote.
    pub fn get_prop<F: Fn(u64) -> JsString>(
        &self,
        heap: &mut Heap,
        name: JsValue,
        format_number: F,
    ) -> (result: Result<JsValue, Fault>)
        requires
            forall|bits: u64| format_number.requires((bits,)),
        ensures
            exists|name_text: Seq<char>|
                is_key_text(old(heap)@, self@, name@, format_number, name_text) && is_read(
                    read_property(old(heap)@, self@, name@, name_text),
                    old(heap)@,
                    final(heap)@,
                    result,
                ),
    {
        let (result, Ghost(name_text)) = self.read(heap, name, format_number);
        result
    }

    /// Stores `value` as the property `name`, and tells under which text.
    fn write<F: Fn(u64) -> JsString>(
        &self,
        heap: &mut Heap,
        name: JsValue,
        value: JsValue,
        format_number: F,
    ) -> (out: (Result<(), Fault>, Ghost<Seq<char>>))
        requires
            forall|bits: u64| format_number.requires((bits,)),
        ensures
            is_key_text(old(heap)@, self@, name@, format_number, out.1@),
            is_written(
                write_property(old(heap)@, self@, name@, out.1@, value@),
                old(heap)@,
                final(heap)@,
                out.0,
            ),
    {
        let ghost plain = text_of(name@);
        match self {
            JsValue::Object(handle) => {
                let is_array = match heap.object(*handle) {
                    Some(obj) => obj.length().is_some(),
                    None => {
                        return (Err(Fault::DanglingReference), Ghost(plain));
                    },
                };
                if is_array {
                    let result = match name {
                        JsValue::Number(index) => match to_index(index) {
                            Some(i) => if heap.store_element(handle.index, i, value) {
                                Ok(())
                            } else {
                                Err(Fault::InvalidIndex)
                            },
                            None => Err(Fault::InvalidIndex),
                        },
                        _ => Err(Fault::UnsupportedArrayKey),
                    };
                    return (result, Ghost(plain));
                }
                let key = name.to_js_string(format_number);
                let ghost key_text = key@;
                heap.store_property(handle.index, key, value);
                (Ok(()), Ghost(key_text))
            },
            _ => (Err(Fault::UnsupportedReceiver), Ghost(plain)),
        }
    }

    /// Stores `value` as the property `name`. Where the name is a number
    /// and the receiver an object that is no array, `format_number` writes
    /// the number, and the value is stored under what it wrote.
    pub fn set_prop<F: Fn(u64) -> JsString>(
        &self,
        heap: &mut Heap,
        name: JsValue,
        value: JsValue,
        format_number: F,
    ) -> (result: Result<(), Fault>)
        requires
            forall|bits: u64| format_number.requires((bits,)),
        ensures
            exists|name_text: Seq<char>|
                is_key_text(old(heap)@, self@, name@, format_number, name_text) && is_written(
                    write_property(old(heap)@, self@, name@, name_text, value@),
                    old(heap)@,
                    final(heap)@,
                    result,
                ),
    {
        let (result, Ghost(name_text)) = self.write(heap, name, value, format_number);
        result
    }
}

} // verus!
