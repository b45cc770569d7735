use js_to_rust::runtime::builtins::{Builtins, Invocation, log_line};
use js_to_rust::runtime::heap::Heap;
use js_to_rust::runtime::js_string::JsString;
use js_to_rust::runtime::number::PI;
use js_to_rust::runtime::object::{JsObjectContents, NativeFunction};
use js_to_rust::runtime::value::{Fault, JsObject, JsValue};

fn number(x: f64) -> JsValue {
    JsValue::Number(x.to_bits())
}

fn text(s: &str) -> JsValue {
    JsValue::from(s)
}

fn format_number(bits: u64) -> JsString {
    JsString::from(&format!("{}", f64::from_bits(bits)))
}

fn one_two_three(heap: &mut Heap) -> JsValue {
    JsValue::new_array(heap, vec![number(1.0), number(2.0), number(3.0)])
}

#[test]
fn array_elements_are_read_by_index() {
    let mut heap = Heap::new();
    let array = one_two_three(&mut heap);
    assert_eq!(array.get_prop(&mut heap, number(0.0), format_number), Ok(number(1.0)));
    assert_eq!(array.get_prop(&mut heap, number(1.0), format_number), Ok(number(2.0)));
    assert_eq!(array.get_prop(&mut heap, number(2.0), format_number), Ok(number(3.0)));
    assert_eq!(array.get_prop(&mut heap, number(-0.0), format_number), Ok(number(1.0)));
}

#[test]
fn array_store_then_read_gives_the_stored_value() {
    let mut heap = Heap::new();
    let array = one_two_three(&mut heap);
    assert_eq!(array.set_prop(&mut heap, number(1.0), text("x"), format_number), Ok(()));
    assert_eq!(array.get_prop(&mut heap, number(1.0), format_number), Ok(text("x")));
    assert_eq!(array.get_prop(&mut heap, number(0.0), format_number), Ok(number(1.0)));
    assert_eq!(array.get_prop(&mut heap, number(2.0), format_number), Ok(number(3.0)));
}

#[test]
fn array_length_is_the_element_count() {
    let mut heap = Heap::new();
    let array = one_two_three(&mut heap);
    assert_eq!(array.get_prop(&mut heap, text("length"), format_number), Ok(number(3.0)));
    assert_eq!(array.set_prop(&mut heap, number(1.0), JsValue::Null, format_number), Ok(()));
    assert_eq!(array.get_prop(&mut heap, text("length"), format_number), Ok(number(3.0)));
    let empty = JsValue::new_array(&mut heap, vec![]);
    assert_eq!(empty.get_prop(&mut heap, text("length"), format_number), Ok(number(0.0)));
}

#[test]
fn array_index_out_of_range_is_a_fault() {
    let mut heap = Heap::new();
    let array = one_two_three(&mut heap);
    assert_eq!(array.get_prop(&mut heap, number(3.0), format_number), Err(Fault::InvalidIndex));
    assert_eq!(array.get_prop(&mut heap, number(1e30), format_number), Err(Fault::InvalidIndex));
    assert_eq!(
        array.get_prop(&mut heap, number(f64::INFINITY), format_number),
        Err(Fault::InvalidIndex)
    );
    assert_eq!(
        array.set_prop(&mut heap, number(3.0), number(4.0), format_number),
        Err(Fault::InvalidIndex)
    );
    assert_eq!(array.get_prop(&mut heap, text("length"), format_number), Ok(number(3.0)));
}

#[test]
fn array_index_that_is_no_natural_is_a_fault() {
    let mut heap = Heap::new();
    let array = one_two_three(&mut heap);
    for key in [0.5, 1.5, -1.0, f64::NAN] {
        assert_eq!(array.get_prop(&mut heap, number(key), format_number), Err(Fault::InvalidIndex));
        assert_eq!(
            array.set_prop(&mut heap, number(key), JsValue::Null, format_number),
            Err(Fault::InvalidIndex)
        );
    }
    assert_eq!(array.get_prop(&mut heap, number(0.0), format_number), Ok(number(1.0)));
}

#[test]
fn array_takes_no_other_keys() {
    let mut heap = Heap::new();
    let array = one_two_three(&mut heap);
    assert_eq!(
        array.get_prop(&mut heap, text("first"), format_number),
        Err(Fault::UnsupportedArrayKey)
    );
    assert_eq!(
        array.get_prop(&mut heap, JsValue::Boolean(true), format_number),
        Err(Fault::UnsupportedArrayKey)
    );
    assert_eq!(
        array.set_prop(&mut heap, text("length"), number(1.0), format_number),
        Err(Fault::UnsupportedArrayKey)
    );
    assert_eq!(array.get_prop(&mut heap, text("length"), format_number), Ok(number(3.0)));
}

#[test]
fn property_of_undefined_is_a_fault_for_every_key() {
    let mut heap = Heap::new();
    let _ = one_two_three(&mut heap);
    let keys = vec![
        text("x"),
        text("length"),
        text("toFixed"),
        number(0.0),
        JsValue::Null,
        JsValue::Undefined,
        JsValue::Boolean(false),
        JsValue::Object(JsObject { index: 0 }),
    ];
    for key in keys {
        assert_eq!(
            JsValue::Undefined.get_prop(&mut heap, key, format_number),
            Err(Fault::PropertyOfUndefined)
        );
    }
    assert_eq!(heap.len(), 1);
}

#[test]
fn plain_object_reads_its_entries() {
    let mut heap = Heap::new();
    let object = JsValue::from_entries(
        &mut heap,
        vec![(JsString::from("x"), number(1.0)), (JsString::from("y"), text("why"))],
    );
    assert_eq!(object.get_prop(&mut heap, text("x"), format_number), Ok(number(1.0)));
    assert_eq!(object.get_prop(&mut heap, text("y"), format_number), Ok(text("why")));
    assert_eq!(object.get_prop(&mut heap, text("z"), format_number), Ok(JsValue::Undefined));
}

#[test]
fn later_entry_for_a_name_stays() {
    let mut heap = Heap::new();
    let object = JsValue::from_entries(
        &mut heap,
        vec![(JsString::from("x"), number(1.0)), (JsString::from("x"), number(2.0))],
    );
    assert_eq!(object.get_prop(&mut heap, text("x"), format_number), Ok(number(2.0)));
}

#[test]
fn plain_object_write_upserts() {
    let mut heap = Heap::new();
    let object = JsValue::from_entries(&mut heap, vec![(JsString::from("x"), number(1.0))]);
    assert_eq!(object.set_prop(&mut heap, text("x"), number(5.0), format_number), Ok(()));
    assert_eq!(object.set_prop(&mut heap, text("y"), number(6.0), format_number), Ok(()));
    assert_eq!(object.get_prop(&mut heap, text("x"), format_number), Ok(number(5.0)));
    assert_eq!(object.get_prop(&mut heap, text("y"), format_number), Ok(number(6.0)));
    assert_eq!(object.set_prop(&mut heap, text("x"), number(7.0), format_number), Ok(()));
    assert_eq!(object.get_prop(&mut heap, text("x"), format_number), Ok(number(7.0)));
    assert_eq!(object.get_prop(&mut heap, text("y"), format_number), Ok(number(6.0)));
}

#[test]
fn plain_object_keys_go_by_their_text() {
    let mut heap = Heap::new();
    let object = JsValue::from_entries(&mut heap, vec![]);
    assert_eq!(object.set_prop(&mut heap, number(1.0), text("one"), format_number), Ok(()));
    assert_eq!(object.get_prop(&mut heap, text("1"), format_number), Ok(text("one")));
    assert_eq!(object.get_prop(&mut heap, number(1.0), format_number), Ok(text("one")));
    assert_eq!(object.set_prop(&mut heap, JsValue::Null, text("nothing"), format_number), Ok(()));
    assert_eq!(object.get_prop(&mut heap, text("null"), format_number), Ok(text("nothing")));
    assert_eq!(object.set_prop(&mut heap, JsValue::Boolean(true), number(1.0), format_number), Ok(()));
    assert_eq!(object.get_prop(&mut heap, text("true"), format_number), Ok(number(1.0)));
    assert_eq!(object.get_prop(&mut heap, text("length"), format_number), Ok(JsValue::Undefined));
}

#[test]
fn contents_hold_properties_and_elements() {
    let mut plain = JsObjectContents::from_entries(vec![(JsString::from("a"), number(1.0))]);
    assert_eq!(plain.property(&JsString::from("a")), number(1.0));
    assert_eq!(plain.property(&JsString::from("b")), JsValue::Undefined);
    plain.set_property(JsString::from("b"), number(2.0));
    plain.set_property(JsString::from("a"), number(3.0));
    assert_eq!(plain.property(&JsString::from("a")), number(3.0));
    assert_eq!(plain.property(&JsString::from("b")), number(2.0));
    assert_eq!(plain.length(), None);
    assert_eq!(plain.element(0), None);
    assert_eq!(plain.function(), None);
    assert!(!plain.set_element(0, JsValue::Null));

    let mut array = JsObjectContents::new_array(vec![number(1.0), number(2.0)]);
    assert_eq!(array.length(), Some(2));
    assert_eq!(array.element(1), Some(number(2.0)));
    assert_eq!(array.element(2), None);
    assert!(array.set_element(1, text("x")));
    assert!(!array.set_element(2, text("y")));
    assert_eq!(array.element(1), Some(text("x")));
    assert_eq!(array.length(), Some(2));

    let function = JsObjectContents::new_function(NativeFunction::MathSqrt);
    assert_eq!(function.function(), Some(NativeFunction::MathSqrt));
    assert_eq!(function.length(), None);
}

#[test]
fn only_objects_take_values() {
    let mut heap = Heap::new();
    for receiver in [
        JsValue::Null,
        JsValue::Undefined,
        JsValue::Boolean(true),
        number(1.0),
        text("s"),
    ] {
        assert_eq!(
            receiver.set_prop(&mut heap, text("x"), number(1.0), format_number),
            Err(Fault::UnsupportedReceiver)
        );
    }
}

#[test]
fn other_receivers_have_no_properties() {
    let mut heap = Heap::new();
    for receiver in [JsValue::Null, JsValue::Boolean(true), text("s")] {
        assert_eq!(
            receiver.get_prop(&mut heap, text("x"), format_number),
            Err(Fault::UnsupportedReceiver)
        );
    }
}

#[test]
fn handle_of_another_heap_dangles() {
    let mut big = Heap::new();
    let _ = JsValue::from_entries(&mut big, vec![]);
    let second = JsValue::from_entries(&mut big, vec![]);
    let mut small = Heap::new();
    assert_eq!(
        second.get_prop(&mut small, text("x"), format_number),
        Err(Fault::DanglingReference)
    );
    assert_eq!(
        second.set_prop(&mut small, text("x"), number(1.0), format_number),
        Err(Fault::DanglingReference)
    );
    assert_eq!(second.call(&small, &[], format_number), Err(Fault::DanglingReference));
    assert!(small.object(JsObject { index: 0 }).is_none());
    assert!(big.object(JsObject { index: 1 }).is_some());
}

#[test]
fn number_has_to_fixed() {
    let mut heap = Heap::new();
    let function = number(2.5).get_prop(&mut heap, text("toFixed"), format_number).unwrap();
    assert_eq!(heap.len(), 1);
    assert_eq!(
        function.call(&heap, &[number(1.0)], format_number),
        Ok(Invocation::ToFixed { number: 2.5f64.to_bits(), digits: 1.0f64.to_bits() })
    );
    assert_eq!(function.call(&heap, &[text("1")], format_number), Err(Fault::NotANumber));
    assert_eq!(function.call(&heap, &[], format_number), Err(Fault::NotANumber));
    assert_eq!(
        number(2.5).get_prop(&mut heap, text("toString"), format_number),
        Err(Fault::UnsupportedProperty)
    );
    assert_eq!(
        number(2.5).get_prop(&mut heap, number(0.0), format_number),
        Err(Fault::UnsupportedProperty)
    );
}

#[test]
fn only_function_objects_are_callable() {
    let mut heap = Heap::new();
    let array = one_two_three(&mut heap);
    let plain = JsValue::from_entries(&mut heap, vec![]);
    for value in [array, plain, JsValue::Null, JsValue::Undefined, number(1.0), text("f")] {
        assert_eq!(value.call(&heap, &[], format_number), Err(Fault::NotCallable));
    }
}

#[test]
fn logger_joins_its_arguments_with_spaces() {
    let mut heap = Heap::new();
    let log = JsValue::new_function(&mut heap, NativeFunction::ConsoleLog);
    let args = [text("a"), number(1.5), JsValue::Null, JsValue::Boolean(true), JsValue::Undefined];
    assert_eq!(
        log.call(&heap, &args, format_number),
        Ok(Invocation::WriteLine(JsString::from("a 1.5 null true undefined")))
    );
    assert_eq!(log.call(&heap, &[], format_number), Ok(Invocation::WriteLine(JsString::from(""))));
    assert_eq!(log_line(&[text("only")], format_number), JsString::from("only"));
    assert_eq!(log_line(&[log.clone(), text("x")], format_number), JsString::from("[object Object] x"));
}

#[test]
fn square_root_wants_a_number() {
    let mut heap = Heap::new();
    let sqrt = JsValue::new_function(&mut heap, NativeFunction::MathSqrt);
    assert_eq!(
        sqrt.call(&heap, &[number(9.0)], format_number),
        Ok(Invocation::SquareRoot(9.0f64.to_bits()))
    );
    assert_eq!(
        sqrt.call(&heap, &[number(9.0), text("ignored")], format_number),
        Ok(Invocation::SquareRoot(9.0f64.to_bits()))
    );
    assert_eq!(sqrt.call(&heap, &[text("9")], format_number), Err(Fault::NotANumber));
    assert_eq!(sqrt.call(&heap, &[], format_number), Err(Fault::NotANumber));
}

#[test]
fn function_objects_have_properties_too() {
    let mut heap = Heap::new();
    let sqrt = JsValue::new_function(&mut heap, NativeFunction::MathSqrt);
    assert_eq!(sqrt.get_prop(&mut heap, text("name"), format_number), Ok(JsValue::Undefined));
    assert_eq!(sqrt.set_prop(&mut heap, text("name"), text("sqrt"), format_number), Ok(()));
    assert_eq!(sqrt.get_prop(&mut heap, text("name"), format_number), Ok(text("sqrt")));
    assert_eq!(
        sqrt.call(&heap, &[number(4.0)], format_number),
        Ok(Invocation::SquareRoot(4.0f64.to_bits()))
    );
}

#[test]
fn built_in_bindings() {
    let mut heap = Heap::new();
    let _ = JsValue::from_entries(&mut heap, vec![]);
    let builtins = Builtins::new(&mut heap, &vec![JsString::from("prog"), JsString::from("5")]);
    assert_eq!(heap.len(), 4);
    assert_eq!(builtins.math().PI, JsValue::Number(PI));
    assert_eq!(builtins.math().PI, number(std::f64::consts::PI));
    assert_eq!(builtins.console().log, JsValue::Object(JsObject { index: 1 }));
    assert_eq!(builtins.process().argv, JsValue::Object(JsObject { index: 2 }));
    assert_eq!(builtins.math().sqrt, JsValue::Object(JsObject { index: 3 }));
    let argv = builtins.process().argv;
    assert_eq!(argv.get_prop(&mut heap, text("length"), format_number), Ok(number(3.0)));
    assert_eq!(argv.get_prop(&mut heap, number(0.0), format_number), Ok(text("node")));
    assert_eq!(argv.get_prop(&mut heap, number(1.0), format_number), Ok(text("prog")));
    assert_eq!(argv.get_prop(&mut heap, number(2.0), format_number), Ok(text("5")));
    assert_eq!(
        builtins.console().log.call(&heap, &[text("hi")], format_number),
        Ok(Invocation::WriteLine(JsString::from("hi")))
    );
    assert_eq!(
        builtins.math().sqrt.call(&heap, &[number(2.0)], format_number),
        Ok(Invocation::SquareRoot(2.0f64.to_bits()))
    );
}

#[test]
fn objects_keep_their_places() {
    let mut heap = Heap::new();
    let first = JsValue::from_entries(&mut heap, vec![]);
    let second = one_two_three(&mut heap);
    let third = JsValue::new_function(&mut heap, NativeFunction::ConsoleLog);
    assert_eq!(first, JsValue::Object(JsObject { index: 0 }));
    assert_eq!(second, JsValue::Object(JsObject { index: 1 }));
    assert_eq!(third, JsValue::Object(JsObject { index: 2 }));
    assert_eq!(first.set_prop(&mut heap, text("k"), number(1.0), format_number), Ok(()));
    assert_eq!(second.get_prop(&mut heap, number(0.0), format_number), Ok(number(1.0)));
    assert_eq!(heap.len(), 3);
}
