//! The string of the dynamic-value runtime.

use vstd::prelude::*;
use vstd::std_specs::cmp::PartialEqSpecImpl;
use vstd::string::*;

verus! {

/// An immutable sequence of characters. Two strings are the same string
/// when they hold the same characters.
#[derive(Debug)]
pub struct JsString {
    value: String,
}

impl View for JsString {
    type V = Seq<char>;

    closed spec fn view(&self) -> Seq<char> {
        self.value@
    }
}

impl JsString {
    /// The string with the characters of `value`.
    pub fn from(value: &str) -> (string: JsString)
        ensures
            string@ == value@,
    {
        JsString { value: String::from_str(value) }
    }

    /// The string with the characters of `value`, without a copy.
    pub fn from_string(value: String) -> (string: JsString)
        ensures
            string@ == value@,
    {
        JsString { value }
    }

    /// The characters, to read.
    pub fn as_str(&self) -> (text: &str)
        ensures
            text@ == self@,
    {
        self.value.as_str()
    }
}

impl Clone for JsString {
    fn clone(&self) -> (copy: JsString)
        ensures
            copy@ == self@,
    {
        JsString { value: self.value.clone() }
    }
}

impl PartialEq for JsString {
    fn eq(&self, other: &JsString) -> (same: bool) {
        self.value == other.value
    }
}

impl PartialEqSpecImpl for JsString {
    open spec fn obeys_eq_spec() -> bool {
        true
    }

    open spec fn eq_spec(&self, other: &JsString) -> bool {
        self@ == other@
    }
}

impl Eq for JsString {

}

} // verus!
