//! The dynamic-value runtime.

pub mod access;
pub mod builtins;
pub mod heap;
pub mod js_cell;
pub mod laws;
pub mod js_string;
pub mod number;
pub mod object;
pub mod value;
