//! The dynamic value and what can be asked of it without the heap.

use crate::runtime::js_string::JsString;
use crate::runtime::number::{
    from_index, is_less_than, is_negative, is_nonzero, lemma_negated_twice, less_than,
    natural_value, negate_bits, negated, nonzero, rounded, NAN, ONE, ZERO,
};
use vstd::prelude::*;

verus! {

/// A handle to an object of a heap: the object's place in it. Copies of a
/// handle name the same object.
#[derive(Debug, Clone, Copy, PartialEq, Eq, Structural)]
pub struct JsObject {
    pub index: usize,
}

/// A dynamic value. Numbers are held by their bit pattern, strings by
/// their characters, objects by a handle into the heap.
#[derive(Debug, PartialEq, Eq)]
pub enum JsValue {
    Null,
    Undefined,
    Boolean(bool),
    Number(u64),
    String(JsString),
    Object(JsObject),
}

/// What a dynamic value holds.
pub enum Value {
    Null,
    Undefined,
    Boolean(bool),
    Number(u64),
    String(Seq<char>),
    Object(usize),
}

/// Why an operation of the runtime could not be carried out. The program
/// that meets one of these ends there.
#[derive(Debug, Clone, Copy, PartialEq, Eq, Structural)]
pub enum Fault {
    /// Arithmetic or comparison on a value that is not a number, or a
    /// built-in function that wants a number and got none.
    NotANumber,
    /// A property read on the undefined value.
    PropertyOfUndefined,
    /// A property access on a value that has no properties here.
    UnsupportedReceiver,
    /// A property of a number other than the one it has.
    UnsupportedProperty,
    /// An array index that is not a natural number, or not below the
    /// array's length.
    InvalidIndex,
    /// An array key that is neither an index nor, on a read, the length.
    UnsupportedArrayKey,
    /// A call of something that is not a function object.
    NotCallable,
    /// A handle that names no object of the heap it is used with.
    DanglingReference,
}

/// What a program that ends on a fault says.
pub open spec fn fault_message(fault: Fault) -> Seq<char> {
    match fault {
        Fault::NotANumber => "Used a value that is not a number where only a number can stand"@,
        Fault::PropertyOfUndefined => "Cannot read properties of undefined"@,
        Fault::UnsupportedReceiver => "Used a property of a value that has no properties"@,
        Fault::UnsupportedProperty => "Used a property that a number does not have"@,
        Fault::InvalidIndex => "Used an index that is not a position of the array"@,
        Fault::UnsupportedArrayKey => "Used a key that an array does not take"@,
        Fault::NotCallable =>
            "Used the function call syntax () on something that isn't callable"@,
        Fault::DanglingReference => "Used an object that is not on the heap"@,
    }
}

impl Fault {
    /// What a program that ends on this fault says.
    pub fn message(&self) -> (text: &'static str)
        ensures
            text@ == fault_message(*self),
    {
        match self {
            Fault::NotANumber => "Used a value that is not a number where only a number can stand",
            Fault::PropertyOfUndefined => "Cannot read properties of undefined",
            Fault::UnsupportedReceiver => "Used a property of a value that has no properties",
            Fault::UnsupportedProperty => "Used a property that a number does not have",
            Fault::InvalidIndex => "Used an index that is not a position of the array",
            Fault::UnsupportedArrayKey => "Used a key that an array does not take",
            Fault::NotCallable => {
                "Used the function call syntax () on something that isn't callable"
            },
            Fault::DanglingReference => "Used an object that is not on the heap",
        }
    }
}

impl View for JsValue {
    type V = Value;

    open spec fn view(&self) -> Value {
        match *self {
            JsValue::Null => Value::Null,
            JsValue::Undefined => Value::Undefined,
            JsValue::Boolean(b) => Value::Boolean(b),
            JsValue::Number(bits) => Value::Number(bits),
            JsValue::String(s) => Value::String(s@),
            JsValue::Object(handle) => Value::Object(handle.index),
        }
    }
}

impl Clone for JsValue {
    /// A copy of the value. The copy of an object value is the same handle:
    /// it names the same object.
    fn clone(&self) -> (copy: JsValue)
        ensures
            copy@ == self@,
    {
        match self {
            JsValue::Null => JsValue::Null,
            JsValue::Undefined => JsValue::Undefined,
            JsValue::Boolean(b) => JsValue::Boolean(*b),
            JsValue::Number(bits) => JsValue::Number(*bits),
            JsValue::String(s) => JsValue::String(s.clone()),
            JsValue::Object(handle) => JsValue::Object(*handle),
        }
    }
}

/// Whether a value counts as true in a condition: undefined and null do
/// not, a boolean as it says, a number unless it is zero, a string unless it
/// is empty, an object always.
pub open spec fn truthy_value(value: Value) -> bool {
    match value {
        Value::Undefined => false,
        Value::Null => false,
        Value::Boolean(b) => b,
        Value::Number(bits) => nonzero(bits),
        Value::String(s) => s.len() != 0,
        Value::Object(_) => true,
    }
}

/// The text of a value that is not a number.
pub open spec fn text_of(value: Value) -> Seq<char> {
    match value {
        Value::Null => "null"@,
        Value::Undefined => "undefined"@,
        Value::Boolean(b) => if b {
            "true"@
        } else {
            "false"@
        },
        Value::Number(_) => Seq::empty(),
        Value::String(s) => s,
        Value::Object(_) => "[object Object]"@,
    }
}

/// The number of a value that is not a string: not-a-number for undefined
/// and for objects, zero for null and false, one for true, a number itself.
pub open spec fn number_of(value: Value) -> u64 {
    match value {
        Value::Undefined => NAN,
        Value::Null => ZERO,
        Value::Boolean(b) => if b {
            ONE
        } else {
            ZERO
        },
        Value::Number(bits) => bits,
        Value::String(_) => NAN,
        Value::Object(_) => NAN,
    }
}

/// Whether `text` is the value as a string, where `format_number` writes
/// the numbers.
pub open spec fn is_text_of<F: Fn(u64) -> JsString>(
    value: Value,
    format_number: F,
    text: JsString,
) -> bool {
    match value {
        Value::Number(bits) => format_number.ensures((bits,), text),
        other => text@ == text_of(other),
    }
}

/// Whether `bits` is the value as a number, where `parse_number` reads the
/// strings: what it reads, or not-a-number where it reads nothing.
pub open spec fn is_number_of<F: Fn(&JsString) -> Option<u64>>(
    value: JsValue,
    parse_number: F,
    bits: u64,
) -> bool {
    match value {
        JsValue::String(s) => exists|parsed: Option<u64>|
            parse_number.ensures((&s,), parsed) && bits == match parsed {
                Some(read) => read,
                None => NAN,
            },
        _ => bits == number_of(value@),
    }
}

impl JsValue {
    /// The string value with the characters of `value`.
    pub fn from(value: &str) -> (v: JsValue)
        ensures
            v@ == Value::String(value@),
    {
        JsValue::String(JsString::from(value))
    }

    /// The number value that is the natural number `value`, rounded to
    /// fifty-three significant bits where it has more.
    pub fn from_usize(value: usize) -> (v: JsValue)
        ensures
            v matches JsValue::Number(bits) && natural_value(bits) == Some(rounded(value as nat))
                && !is_negative(bits),
    {
        JsValue::Number(from_index(value))
    }

    /// Applies `operation` to two numbers. Both operands have to be numbers
    /// already: nothing is coerced.
    pub fn do_binary_operation_nums<F: Fn(u64, u64) -> u64>(
        &self,
        other: JsValue,
        operation: F,
    ) -> (result: Result<JsValue, Fault>)
        requires
            forall|a: u64, b: u64| operation.requires((a, b)),
        ensures
            match (self@, other@) {
                (Value::Number(a), Value::Number(b)) => result matches Ok(JsValue::Number(c))
                    && operation.ensures((a, b), c),
                _ => result matches Err(Fault::NotANumber),
            },
    {
        match (self, other) {
            (JsValue::Number(self_num), JsValue::Number(other_num)) => Ok(
                JsValue::Number(operation(*self_num, other_num)),
            ),
            _ => Err(Fault::NotANumber),
        }
    }

    /// Whether `self` is less than `other`, as a boolean value. Both have
    /// to be numbers already.
    pub fn less(&self, other: JsValue) -> (result: Result<JsValue, Fault>)
        ensures
            match (self@, other@) {
                (Value::Number(a), Value::Number(b)) => result matches Ok(v) && v@
                    == Value::Boolean(less_than(a, b)),
                _ => result matches Err(Fault::NotANumber),
            },
    {
        match (self, other) {
            (JsValue::Number(self_num), JsValue::Number(other_num)) => Ok(
                JsValue::Boolean(is_less_than(*self_num, other_num)),
            ),
            _ => Err(Fault::NotANumber),
        }
    }

    /// The value as a string. A number is written by `format_number`.
    pub fn to_js_string<F: Fn(u64) -> JsString>(&self, format_number: F) -> (text: JsString)
        requires
            forall|bits: u64| format_number.requires((bits,)),
        ensures
            is_text_of(self@, format_number, text),
    {
        match self {
            JsValue::Null => JsString::from("null"),
            JsValue::Undefined => JsString::from("undefined"),
            JsValue::Boolean(val) => if *val {
                JsString::from("true")
            } else {
                JsString::from("false")
            },
            JsValue::Number(val) => format_number(*val),
            JsValue::String(val) => val.clone(),
            JsValue::Object(_) => JsString::from("[object Object]"),
        }
    }

    /// Whether the value counts as false in a condition.
    pub fn falsy(&self) -> (no: bool)
        ensures
            no == !truthy_value(self@),
    {
        !self.truthy()
    }

    /// Whether the value counts as true in a condition.
    pub fn truthy(&self) -> (yes: bool)
        ensures
            yes == truthy_value(self@),
    {
        match self {
            JsValue::Undefined => false,
            JsValue::Null => false,
            JsValue::Boolean(boolean) => *boolean,
            JsValue::Number(number) => is_nonzero(*number),
            JsValue::String(string) => !string.as_str().is_empty(),
            JsValue::Object(_) => true,
        }
    }

    /// The value as a number. A string is read by `parse_number`; one that
    /// it cannot read is not-a-number.
    pub fn to_number<F: Fn(&JsString) -> Option<u64>>(&self, parse_number: F) -> (number: JsValue)
        requires
            forall|s: &JsString| parse_number.requires((s,)),
        ensures
            number matches JsValue::Number(bits) && is_number_of(*self, parse_number, bits),
    {
        let num = match self {
            JsValue::Undefined => NAN,
            JsValue::Null => ZERO,
            JsValue::Boolean(value) => {
                if *value {
                    ONE
                } else {
                    ZERO
                }
            },
            JsValue::Number(value) => *value,
            JsValue::String(js_string) => match parse_number(js_string) {
                Some(bits) => bits,
                None => NAN,
            },
            JsValue::Object(_) => NAN,
        };
        JsValue::Number(num)
    }
}

/// Unary minus: the value as a number, with the other sign.
pub fn negate<F: Fn(&JsString) -> Option<u64>>(value: JsValue, parse_number: F) -> (number: JsValue)
    requires
        forall|s: &JsString| parse_number.requires((s,)),
    ensures
        number matches JsValue::Number(bits) && is_number_of(value, parse_number, negated(bits)),
{
    match value.to_number(parse_number) {
        JsValue::Number(num) => {
            proof {
                lemma_negated_twice(num);
            }
            JsValue::Number(negate_bits(num))
        },
        _ => JsValue::Number(NAN),
    }
}

/// Unary plus: the value as a number.
pub fn plus<F: Fn(&JsString) -> Option<u64>>(value: JsValue, parse_number: F) -> (number: JsValue)
    requires
        forall|s: &JsString| parse_number.requires((s,)),
    ensures
        number matches JsValue::Number(bits) && is_number_of(value, parse_number, bits),
{
    value.to_number(parse_number)
}

} // verus!
