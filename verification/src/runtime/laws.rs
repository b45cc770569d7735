//! What holds of the runtime's operations taken together.

use crate::runtime::access::{
    goes_by_text, is_key_text, read_property, write_property, writes_one_text, Read,
};
use crate::runtime::js_string::JsString;
use crate::runtime::number::natural_value;
use crate::runtime::object::{Object, Subtype};
use crate::runtime::value::{Fault, JsValue, Value};
use vstd::prelude::*;

verus! {

/// Reading a property of the undefined value is a fault, whatever the name
/// and whatever the heap holds.
pub proof fn law_undefined_has_no_properties(
    heap: Seq<Object>,
    name: Value,
    name_text: Seq<char>,
)
    ensures
        read_property(heap, Value::Undefined, name, name_text) == Err::<Read, Fault>(
            Fault::PropertyOfUndefined,
        ),
{
}

/// A value stored at an index of an array is what a read at that index
/// gives afterwards, through the handle that stored it and through every
/// copy of that handle: they name the same object. The store leaves the
/// other elements as they were, and the length: before the store and after
/// it, the length is the number of elements that the array was made with.
pub proof fn law_array_store_then_read(
    heap: Seq<Object>,
    writer: JsValue,
    reader: JsValue,
    index: u64,
    value: Value,
    store_text: Seq<char>,
    read_text: Seq<char>,
)
    requires
        writer@ == reader@,
        writer@ matches Value::Object(place) && place < heap.len() && (
        heap[place as int].subtype matches Subtype::Array(elements) && (natural_value(index)
            matches Some(i) && i < elements.len())),
    ensures
        write_property(heap, writer@, Value::Number(index), store_text, value) matches Ok(after)
            && read_property(after, reader@, Value::Number(index), read_text) == Ok::<Read, Fault>(
            Read::Value(value),
        ) && read_property(after, reader@, Value::String("length"@), read_text) == read_property(
            heap,
            reader@,
            Value::String("length"@),
            read_text,
        ) && read_property(heap, reader@, Value::String("length"@), read_text) == Ok::<
            Read,
            Fault,
        >(Read::Length(heap[writer@->Object_0 as int].subtype->Array_0.len())) && (forall|
            other: u64,
        |
            natural_value(other) != natural_value(index) ==> read_property(
                after,
                reader@,
                Value::Number(other),
                read_text,
            ) == read_property(heap, reader@, Value::Number(other), read_text)),
{
}

/// The length of an array is the number of its elements, whatever was
/// stored in it.
pub proof fn law_array_length(heap: Seq<Object>, place: usize, name_text: Seq<char>)
    requires
        place < heap.len(),
        heap[place as int].subtype is Array,
    ensures
        read_property(heap, Value::Object(place), Value::String("length"@), name_text) == Ok::<
            Read,
            Fault,
        >(Read::Length(heap[place as int].subtype->Array_0.len())),
{
}

/// A value stored under a name of an object that is no array is what a
/// read under that name gives afterwards, through the handle that stored it
/// and through every copy of it. What is under the other names stays.
pub proof fn law_property_store_then_read(
    heap: Seq<Object>,
    writer: JsValue,
    reader: JsValue,
    name: Value,
    name_text: Seq<char>,
    value: Value,
    other: Value,
    other_text: Seq<char>,
)
    requires
        writer@ == reader@,
        writer@ matches Value::Object(place) && place < heap.len() && !(
        heap[place as int].subtype is Array),
        other_text != name_text,
    ensures
        write_property(heap, writer@, name, name_text, value) matches Ok(after) && read_property(
            after,
            reader@,
            name,
            name_text,
        ) == Ok::<Read, Fault>(Read::Value(value)) && read_property(
            after,
            reader@,
            other,
            other_text,
        ) == read_property(heap, reader@, other, other_text),
{
}

/// A value stored under a key of an object that is no array is what a read
/// under the same key gives afterwards, whatever the key is: a string, a
/// number or any other value. `store_text` and `read_text` are the texts
/// under which the two accesses went. Where the key is a number, they are
/// one text because `format_number` writes every number in one way.
pub proof fn law_key_store_then_read<F: Fn(u64) -> JsString>(
    heap: Seq<Object>,
    writer: JsValue,
    reader: JsValue,
    name: Value,
    format_number: F,
    store_text: Seq<char>,
    read_text: Seq<char>,
    value: Value,
)
    requires
        writes_one_text(format_number),
        writer@ == reader@,
        goes_by_text(heap, writer@),
        is_key_text(heap, writer@, name, format_number, store_text),
        write_property(heap, writer@, name, store_text, value) matches Ok(after) ==> is_key_text(
            after,
            reader@,
            name,
            format_number,
            read_text,
        ),
    ensures
        write_property(heap, writer@, name, store_text, value) matches Ok(after) && read_property(
            after,
            reader@,
            name,
            read_text,
        ) == Ok::<Read, Fault>(Read::Value(value)),
{
    let after = write_property(heap, writer@, name, store_text, value)->Ok_0;
    assert(goes_by_text(after, reader@));
    if name is Number {
        let bits = name->Number_0;
        let stored = choose|written: JsString|
            format_number.ensures((bits,), written) && written@ == store_text;
        let read = choose|written: JsString|
            format_number.ensures((bits,), written) && written@ == read_text;
        assert(format_number.ensures((bits,), stored) && format_number.ensures((bits,), read));
        assert(stored@ == read@);
    }
    assert(store_text == read_text);
}

/// A store changes one object: every other object of the heap is as it
/// was, and no object comes or goes.
pub proof fn law_store_is_local(
    heap: Seq<Object>,
    receiver: Value,
    name: Value,
    name_text: Seq<char>,
    value: Value,
    place: int,
)
    requires
        write_property(heap, receiver, name, name_text, value) is Ok,
        0 <= place < heap.len(),
        receiver != Value::Object(place as usize),
    ensures
        write_property(heap, receiver, name, name_text, value)->Ok_0.len() == heap.len(),
        write_property(heap, receiver, name, name_text, value)->Ok_0[place] == heap[place],
{
}

/// The shape of an object: its subtype, and for an array the number of its
/// elements.
pub open spec fn shape(object: Object) -> Option<nat> {
    match object.subtype {
        Subtype::Array(elements) => Some(elements.len()),
        _ => None,
    }
}

/// A store changes no object's subtype and no array's length: an object is
/// of one subtype from when it is made, and an array does not grow.
pub proof fn law_store_keeps_shapes(
    heap: Seq<Object>,
    receiver: Value,
    name: Value,
    name_text: Seq<char>,
    value: Value,
    place: int,
)
    requires
        write_property(heap, receiver, name, name_text, value) is Ok,
        0 <= place < heap.len(),
    ensures
        ({
            let after = write_property(heap, receiver, name, name_text, value)->Ok_0;
            &&& after.len() == heap.len()
            &&& after[place].subtype is RegularObject <==> heap[place].subtype is RegularObject
            &&& after[place].subtype is Function ==> after[place].subtype == heap[place].subtype
            &&& shape(after[place]) == shape(heap[place])
        }),
{
}

} // verus!
