//! Calls of function objects, and the built-in bindings.
//!
//! What a built-in function does to the world outside (writing a line)
//! and to numbers (a square root, a fixed number of decimals) is not done
//! here: a call comes to the request for it, which the host carries out.

use crate::runtime::heap::Heap;
use crate::runtime::js_string::JsString;
use crate::runtime::number::PI;
use crate::runtime::object::{values, NativeFunction, Object, Subtype};
use crate::runtime::value::{is_text_of, Fault, JsValue, Value};
use crate::text::join;
use vstd::prelude::*;
use vstd::string::*;

verus! {

/// What the host has to carry out for a call of a built-in function, and
/// what the call then evaluates to.
#[derive(Debug, PartialEq, Eq)]
pub enum Invocation {
    /// Write this line. The call evaluates to the undefined value.
    WriteLine(JsString),
    /// The call evaluates to the square root of this number.
    SquareRoot(u64),
    /// The call evaluates to the string that writes `number` with `digits`
    /// decimals.
    ToFixed { number: u64, digits: u64 },
}

/// The function that a call of `receiver` invokes: only a function object
/// can be called.
pub open spec fn callee(heap: Seq<Object>, receiver: Value) -> Result<NativeFunction, Fault> {
    match receiver {
        Value::Object(place) => if place >= heap.len() {
            Err(Fault::DanglingReference)
        } else {
            match heap[place as int].subtype {
                Subtype::Function(function) => Ok(function),
                _ => Err(Fault::NotCallable),
            }
        },
        _ => Err(Fault::NotCallable),
    }
}

/// Whether `line` is the values as strings, with one space between
/// neighbours, where `format_number` writes the numbers.
pub open spec fn is_line_of<F: Fn(u64) -> JsString>(
    args: Seq<Value>,
    format_number: F,
    line: Seq<char>,
) -> bool {
    exists|written: Seq<JsString>|
        written.len() == args.len() && (forall|i: int|
            0 <= i < args.len() ==> is_text_of(args[i], format_number, #[trigger] written[i]))
            && line == join(Seq::new(written.len(), |i: int| written[i]@), " "@)
}

/// The number that a built-in function takes as its first argument.
pub open spec fn number_argument(args: Seq<Value>) -> Result<u64, Fault> {
    if args.len() > 0 && args[0] is Number {
        Ok(args[0]->Number_0)
    } else {
        Err(Fault::NotANumber)
    }
}

/// Whether `result` is what a call of `function` with `args` comes to.
pub open spec fn is_invocation<F: Fn(u64) -> JsString>(
    function: NativeFunction,
    args: Seq<Value>,
    format_number: F,
    result: Result<Invocation, Fault>,
) -> bool {
    match function {
        NativeFunction::ConsoleLog => result matches Ok(Invocation::WriteLine(line)) && is_line_of(
            args,
            format_number,
            line@,
        ),
        NativeFunction::MathSqrt => match number_argument(args) {
            Ok(number) => result matches Ok(Invocation::SquareRoot(n)) && n == number,
            Err(fault) => result matches Err(f) && f == fault,
        },
        NativeFunction::ToFixed(number) => match number_argument(args) {
            Ok(digits) => result matches Ok(Invocation::ToFixed { number: n, digits: d }) && n
                == number && d == digits,
            Err(fault) => result matches Err(f) && f == fault,
        },
    }
}

/// The line that the logger writes for `args`.
pub fn log_line<F: Fn(u64) -> JsString>(args: &[JsValue], format_number: F) -> (line: JsString)
    requires
        forall|bits: u64| format_number.requires((bits,)),
    ensures
        is_line_of(values(args@), format_number, line@),
{
    let mut out = String::new();
    let ghost mut written: Seq<JsString> = Seq::empty();
    let mut i: usize = 0;
    assert(Seq::new(0, |j: int| written[j]@) =~= Seq::<Seq<char>>::empty());
    while i < args.len()
        invariant
            i <= args.len(),
            written.len() == i,
            forall|bits: u64| format_number.requires((bits,)),
            forall|j: int|
                0 <= j < i ==> is_text_of(args@[j]@, format_number, #[trigger] written[j]),
            out@ == join(Seq::new(written.len(), |j: int| written[j]@), " "@),
        decreases args.len() - i,
    {
        let text = args[i].to_js_string(&format_number);
        let ghost before = Seq::new(written.len(), |j: int| written[j]@);
        proof {
            written = written.push(text);
            let next = Seq::new(written.len(), |j: int| written[j]@);
            assert(next.drop_last() =~= before);
            assert(next.last() == text@);
            if i == 0 {
                assert(out@ + text@ =~= text@);
            }
        }
        if i > 0 {
            out.append(" ");
        }
        out.append(text.as_str());
        i += 1;
    }
    let line = JsString::from_string(out);
    assert(written.len() == values(args@).len());
    line
}

/// The first argument, which has to be a number.
fn first_number(args: &[JsValue]) -> (number: Result<u64, Fault>)
    ensures
        number == number_argument(values(args@)),
{
    if args.len() > 0 {
        match &args[0] {
            JsValue::Number(bits) => Ok(*bits),
            _ => Err(Fault::NotANumber),
        }
    } else {
        Err(Fault::NotANumber)
    }
}

impl JsValue {
    /// Calls the value with `args`: the request for what the function
    /// object stands for. Anything but a function object is not callable.
    pub fn call<F: Fn(u64) -> JsString>(&self, heap: &Heap, args: &[JsValue], format_number: F) -> (
        result: Result<Invocation, Fault>)
        requires
            forall|bits: u64| format_number.requires((bits,)),
        ensures
            match callee(heap@, self@) {
                Err(fault) => result matches Err(f) && f == fault,
                Ok(function) => is_invocation(function, values(args@), format_number, result),
            },
    {
        let function = match self {
            JsValue::Object(handle) => match heap.object(*handle) {
                Some(obj) => match obj.function() {
                    Some(function) => function,
                    None => {
                        return Err(Fault::NotCallable);
                    },
                },
                None => {
                    return Err(Fault::DanglingReference);
                },
            },
            _ => {
                return Err(Fault::NotCallable);
            },
        };
        match function {
            NativeFunction::ConsoleLog => Ok(Invocation::WriteLine(log_line(args, format_number))),
            NativeFunction::MathSqrt => match first_number(args) {
                Ok(number) => Ok(Invocation::SquareRoot(number)),
                Err(fault) => Err(fault),
            },
            NativeFunction::ToFixed(number) => match first_number(args) {
                Ok(digits) => Ok(Invocation::ToFixed { number, digits }),
                Err(fault) => Err(fault),
            },
        }
    }
}

/// The logger binding.
#[derive(Debug)]
pub struct ConsoleStruct {
    /// The function that writes its arguments as one line.
    pub log: JsValue,
}

/// The process binding.
#[derive(Debug)]
pub struct ProcessStruct {
    /// The array of the arguments that the program was started with.
    pub argv: JsValue,
}

/// The math binding.
#[allow(non_snake_case)]
#[derive(Debug)]
pub struct MathStruct {
    /// The circle constant.
    pub PI: JsValue,
    /// The square root function.
    pub sqrt: JsValue,
}

/// The built-in bindings of one program. They are made once, together with
/// their objects, and only read from then on.
#[derive(Debug)]
pub struct Builtins {
    pub console: ConsoleStruct,
    pub process: ProcessStruct,
    pub math: MathStruct,
}

/// What the argument array holds: the name of the interpreter that the
/// program is taken to run under, then the arguments as strings.
pub open spec fn argv_values(arguments: Seq<JsString>) -> Seq<Value> {
    seq![Value::String("node"@)] + Seq::new(
        arguments.len(),
        |i: int| Value::String(arguments[i]@),
    )
}

impl Builtins {
    /// Makes the bindings and puts their three objects on the heap: the
    /// logger's function, the argument array, the square root function.
    pub fn new(heap: &mut Heap, arguments: &Vec<JsString>) -> (builtins: Builtins)
        ensures
            final(heap)@ == old(heap)@.push(
                Object {
                    properties: Map::empty(),
                    subtype: Subtype::Function(NativeFunction::ConsoleLog),
                },
            ).push(
                Object {
                    properties: Map::empty(),
                    subtype: Subtype::Array(argv_values(arguments@)),
                },
            ).push(
                Object {
                    properties: Map::empty(),
                    subtype: Subtype::Function(NativeFunction::MathSqrt),
                },
            ),
            builtins.console.log@ == Value::Object((old(heap)@.len()) as usize),
            builtins.process.argv@ == Value::Object((old(heap)@.len() + 1) as usize),
            builtins.math.sqrt@ == Value::Object((old(heap)@.len() + 2) as usize),
            builtins.math.PI@ == Value::Number(PI),
            old(heap)@.len() + 2 <= usize::MAX,
    {
        let log = JsValue::new_function(heap, NativeFunction::ConsoleLog);
        let mut elements: Vec<JsValue> = Vec::new();
        elements.push(JsValue::from("node"));
        let mut i: usize = 0;
        while i < arguments.len()
            invariant
                i <= arguments.len(),
                elements.len() == i + 1,
                elements@[0]@ == Value::String("node"@),
                forall|j: int|
                    0 <= j < i ==> (#[trigger] elements@[j + 1])@ == Value::String(
                        arguments@[j]@,
                    ),
            decreases arguments.len() - i,
        {
            elements.push(JsValue::String(arguments[i].clone()));
            i += 1;
        }
        assert(values(elements@) =~= argv_values(arguments@)) by {
            assert forall|k: int| 0 <= k < elements@.len() implies values(elements@)[k]
                == argv_values(arguments@)[k] by {
                if k > 0 {
                    assert(elements@[(k - 1) + 1]@ == Value::String(arguments@[k - 1]@));
                }
            }
        }
        let argv = JsValue::new_array(heap, elements);
        let sqrt = JsValue::new_function(heap, NativeFunction::MathSqrt);
        Builtins {
            console: ConsoleStruct { log },
            process: ProcessStruct { argv },
            math: MathStruct { PI: JsValue::Number(PI), sqrt },
        }
    }

    /// The logger binding.
    pub fn console(&self) -> (console: ConsoleStruct)
        ensures
            console.log@ == self.console.log@,
    {
        ConsoleStruct { log: self.console.log.clone() }
    }

    /// The process binding.
    pub fn process(&self) -> (process: ProcessStruct)
        ensures
            process.argv@ == self.process.argv@,
    {
        ProcessStruct { argv: self.process.argv.clone() }
    }

    /// The math binding.
    pub fn math(&self) -> (math: MathStruct)
        ensures
            math.PI@ == self.math.PI@,
            math.sqrt@ == self.math.sqrt@,
    {
        MathStruct { PI: self.math.PI.clone(), sqrt: self.math.sqrt.clone() }
    }
}

} // verus!
