//! Lowering: from the syntax tree to host-language source text.

pub mod error;
pub mod expression;
pub mod laws;
pub mod model;
pub mod statement;
