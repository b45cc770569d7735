//! Why lowering gave up.

use crate::ast::{
    AssignmentOperator, BinaryOperator, ExpressionKind, NodeKind, StatementKind, UnaryOperator,
    VariableDeclarationKind,
};
use vstd::prelude::*;

verus! {

/// The shape of an assignment's left-hand side, for diagnostics.
#[derive(Debug, Clone, Copy, PartialEq, Eq, Structural)]
pub enum AssignmentTargetKind {
    Identifier,
    StaticMember,
    ComputedMember,
    Other,
}

/// The construct that stopped lowering. Lowering either produces the whole
/// text or one of these and no text at all.
#[derive(Debug, Clone, Copy, PartialEq, Eq, Structural)]
pub enum LowerError {
    /// The node handed to program assembly is not a program.
    UnsupportedNode(NodeKind),
    /// A statement form that is not covered.
    UnsupportedStatement(StatementKind),
    /// An expression form that is not covered.
    UnsupportedExpression(ExpressionKind),
    /// A binary operator without a runtime method.
    UnsupportedBinaryOperator(BinaryOperator),
    /// A unary operator without a runtime function.
    UnsupportedUnaryOperator(UnaryOperator),
    /// An assignment operator that the target's shape does not allow.
    UnsupportedAssignment { target: AssignmentTargetKind, operator: AssignmentOperator },
    /// `++` or `--` on something other than a plain name.
    UnsupportedUpdateTarget,
    /// A parameter or a declarator that is not a plain name.
    UnsupportedBindingPattern,
    /// An object literal key that is not a plain identifier.
    UnsupportedPropertyKey,
    /// A declaration keyword other than `let` and `const`.
    UnsupportedDeclarationKind(VariableDeclarationKind),
    /// A spread element in an array literal, an object literal or a call.
    SpreadElement,
    /// A hole in an array literal.
    Elision,
    /// A function declaration without a name.
    UnnamedFunction,
}

} // verus!
