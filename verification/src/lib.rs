//! Lowering of a scripting language's syntax tree to host-language source
//! text, and the dynamic-value runtime that the emitted text runs against.

pub mod ast;
pub mod lowering;
pub mod nodes;
pub mod runtime;
pub mod text;
