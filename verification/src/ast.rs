//! The syntax tree that lowering reads.
//!
//! The tree holds exactly what code generation looks at: the shape of each
//! node and the names and literals in it. Source positions, scopes and
//! symbols are not part of it. Constructs that code generation does not
//! cover are kept as bare kinds, so that a diagnostic can name them.

use vstd::prelude::*;

verus! {

/// Operator of a binary expression.
#[derive(Debug, Clone, Copy, PartialEq, Eq, Structural)]
pub enum BinaryOperator {
    Equality,
    Inequality,
    StrictEquality,
    StrictInequality,
    LessThan,
    LessEqualThan,
    GreaterThan,
    GreaterEqualThan,
    ShiftLeft,
    ShiftRight,
    ShiftRightZeroFill,
    Addition,
    Subtraction,
    Multiplication,
    Division,
    Remainder,
    BitwiseOR,
    BitwiseXOR,
    BitwiseAnd,
    In,
    Instanceof,
    Exponential,
}

/// Operator of an assignment expression.
#[derive(Debug, Clone, Copy, PartialEq, Eq, Structural)]
pub enum AssignmentOperator {
    Assign,
    Addition,
    Subtraction,
    Multiplication,
    Division,
    Remainder,
    ShiftLeft,
    ShiftRight,
    ShiftRightZeroFill,
    BitwiseOR,
    BitwiseXOR,
    BitwiseAnd,
    LogicalAnd,
    LogicalOr,
    LogicalNullish,
    Exponential,
}

/// Operator of a unary expression.
#[derive(Debug, Clone, Copy, PartialEq, Eq, Structural)]
pub enum UnaryOperator {
    UnaryNegation,
    UnaryPlus,
    LogicalNot,
    BitwiseNot,
    Typeof,
    Void,
    Delete,
}

/// Operator of an update expression.
#[derive(Debug, Clone, Copy, PartialEq, Eq, Structural)]
pub enum UpdateOperator {
    Increment,
    Decrement,
}

/// The keyword that introduces a variable declaration.
#[derive(Debug, Clone, Copy, PartialEq, Eq, Structural)]
pub enum VariableDeclarationKind {
    Var,
    Const,
    Let,
    Using,
    AwaitUsing,
}

/// The expression forms that code generation does not cover.
#[derive(Debug, Clone, Copy, PartialEq, Eq, Structural)]
pub enum ExpressionKind {
    BigIntLiteral,
    RegExpLiteral,
    TemplateLiteral,
    MetaProperty,
    Super,
    ArrowFunctionExpression,
    AwaitExpression,
    ChainExpression,
    ClassExpression,
    ConditionalExpression,
    FunctionExpression,
    ImportExpression,
    LogicalExpression,
    NewExpression,
    SequenceExpression,
    TaggedTemplateExpression,
    ThisExpression,
    YieldExpression,
    PrivateInExpression,
    PrivateFieldExpression,
    JSXElement,
    JSXFragment,
    TSAsExpression,
    TSSatisfiesExpression,
    TSTypeAssertion,
    TSNonNullExpression,
    TSInstantiationExpression,
}

/// The statement forms that code generation does not cover.
#[derive(Debug, Clone, Copy, PartialEq, Eq, Structural)]
pub enum StatementKind {
    BreakStatement,
    ContinueStatement,
    DebuggerStatement,
    DoWhileStatement,
    EmptyStatement,
    ForInStatement,
    ForOfStatement,
    IfStatement,
    LabeledStatement,
    SwitchStatement,
    ThrowStatement,
    TryStatement,
    WhileStatement,
    WithStatement,
    ClassDeclaration,
    TSTypeAliasDeclaration,
    TSInterfaceDeclaration,
    TSEnumDeclaration,
    TSModuleDeclaration,
    TSImportEqualsDeclaration,
    ImportDeclaration,
    ExportAllDeclaration,
    ExportDefaultDeclaration,
    ExportNamedDeclaration,
    TSExportAssignment,
    TSNamespaceExportDeclaration,
}

/// The left-hand side of a declaration or a parameter.
#[derive(Debug, PartialEq, Eq)]
pub enum BindingPattern {
    /// A plain name.
    BindingIdentifier(String),
    ObjectPattern,
    ArrayPattern,
    AssignmentPattern,
}

/// The key of an object literal entry.
#[derive(Debug, PartialEq, Eq)]
pub enum PropertyKey {
    /// A key written as an identifier: `{ key: value }`.
    StaticIdentifier(String),
    PrivateIdentifier,
    /// A key written as any other expression: a string, a number, `[computed]`.
    Expression,
}

/// One entry of an object literal.
#[derive(Debug, PartialEq, Eq)]
pub enum ObjectProperty {
    Property { key: PropertyKey, value: Expression },
    SpreadProperty,
}

/// One element of an array literal.
#[derive(Debug, PartialEq, Eq)]
pub enum ArrayElement {
    Expression(Expression),
    SpreadElement,
    Elision,
}

/// One argument of a call.
#[derive(Debug, PartialEq, Eq)]
pub enum Argument {
    Expression(Expression),
    SpreadElement,
}

/// The operand of `++` and `--`.
#[derive(Debug, PartialEq, Eq)]
pub enum SimpleAssignmentTarget {
    AssignmentTargetIdentifier(String),
    /// A member expression or a TypeScript wrapper.
    Other,
}

/// `object.property`
#[derive(Debug, PartialEq, Eq)]
pub struct StaticMemberExpression {
    pub object: Box<Expression>,
    pub property: String,
}

/// `object[expression]`
#[derive(Debug, PartialEq, Eq)]
pub struct ComputedMemberExpression {
    pub object: Box<Expression>,
    pub expression: Box<Expression>,
}

/// The left-hand side of an assignment expression.
#[derive(Debug, PartialEq, Eq)]
pub enum AssignmentTarget {
    /// `name = ..`
    AssignmentTargetIdentifier(String),
    /// `object.property = ..`
    StaticMemberExpression(StaticMemberExpression),
    /// `object[expression] = ..`
    ComputedMemberExpression(ComputedMemberExpression),
    /// A destructuring pattern, a private field or a TypeScript wrapper.
    Other,
}

/// `left operator right`, where the operator stores into `left`.
#[derive(Debug, PartialEq, Eq)]
pub struct AssignmentExpression {
    pub operator: AssignmentOperator,
    pub left: AssignmentTarget,
    pub right: Box<Expression>,
}

/// `left operator right`
#[derive(Debug, PartialEq, Eq)]
pub struct BinaryExpression {
    pub left: Box<Expression>,
    pub operator: BinaryOperator,
    pub right: Box<Expression>,
}

/// `operator argument`
#[derive(Debug, PartialEq, Eq)]
pub struct UnaryExpression {
    pub operator: UnaryOperator,
    pub argument: Box<Expression>,
}

/// `++argument`, `--argument`, `argument++` or `argument--`.
#[derive(Debug, PartialEq, Eq)]
pub struct UpdateExpression {
    pub operator: UpdateOperator,
    /// Whether the operator stands before the operand.
    pub prefix: bool,
    pub argument: SimpleAssignmentTarget,
}

/// `callee(arguments)`
#[derive(Debug, PartialEq, Eq)]
pub struct CallExpression {
    pub callee: Box<Expression>,
    pub arguments: Vec<Argument>,
}

/// An expression.
#[derive(Debug, PartialEq, Eq)]
pub enum Expression {
    BooleanLiteral(bool),
    NullLiteral,
    /// A number, written out in decimal digits; `inf` for a literal that is
    /// too large for any other number.
    NumericLiteral(String),
    /// A string, by its contents (without quotes, escapes resolved).
    StringLiteral(String),
    Identifier(String),
    ArrayExpression(Vec<ArrayElement>),
    AssignmentExpression(AssignmentExpression),
    BinaryExpression(BinaryExpression),
    CallExpression(CallExpression),
    ObjectExpression(Vec<ObjectProperty>),
    ParenthesizedExpression(Box<Expression>),
    UnaryExpression(UnaryExpression),
    UpdateExpression(UpdateExpression),
    StaticMemberExpression(StaticMemberExpression),
    ComputedMemberExpression(ComputedMemberExpression),
    /// Any form that code generation does not cover.
    Other(ExpressionKind),
}

/// One `name = init` of a variable declaration.
#[derive(Debug, PartialEq, Eq)]
pub struct VariableDeclarator {
    pub kind: VariableDeclarationKind,
    pub id: BindingPattern,
    pub init: Option<Expression>,
}

/// A `let`, `const` or `var` declaration with its declarators.
#[derive(Debug, PartialEq, Eq)]
pub struct VariableDeclaration {
    pub declarations: Vec<VariableDeclarator>,
}

/// The first clause of a `for` statement.
#[derive(Debug, PartialEq, Eq)]
pub enum ForStatementInit {
    VariableDeclaration(VariableDeclaration),
    Expression(Expression),
}

/// A function declaration.
#[derive(Debug, PartialEq, Eq)]
pub struct Function {
    /// The declared name; absent only for an anonymous default export.
    pub id: Option<String>,
    pub params: Vec<BindingPattern>,
    /// The statements of the body; absent for a declaration without one.
    pub body: Option<Vec<Statement>>,
}

/// `for (init; test; update) body`, each clause optional.
#[derive(Debug, PartialEq, Eq)]
pub struct ForStatement {
    pub init: Option<ForStatementInit>,
    pub test: Option<Expression>,
    pub update: Option<Expression>,
    pub body: Box<Statement>,
}

/// A statement.
#[derive(Debug, PartialEq, Eq)]
pub enum Statement {
    BlockStatement(Vec<Statement>),
    ExpressionStatement(Expression),
    ForStatement(ForStatement),
    ReturnStatement(Option<Expression>),
    VariableDeclaration(VariableDeclaration),
    FunctionDeclaration(Function),
    /// Any form that code generation does not cover.
    Other(StatementKind),
}

/// A whole script: its top-level statements in source order.
#[derive(Debug, PartialEq, Eq)]
pub struct Program {
    pub body: Vec<Statement>,
}

/// The kind of a node, whatever it holds.
#[derive(Debug, Clone, Copy, PartialEq, Eq, Structural)]
pub enum NodeKind {
    BooleanLiteral,
    NullLiteral,
    NumericLiteral,
    BigIntLiteral,
    RegExpLiteral,
    StringLiteral,
    Program,
    IdentifierName,
    IdentifierReference,
    BindingIdentifier,
    LabelIdentifier,
    ThisExpression,
    ArrayExpression,
    ArrayExpressionElement,
    Elision,
    ObjectExpression,
    ObjectProperty,
    PropertyKey,
    TemplateLiteral,
    TaggedTemplateExpression,
    MemberExpression,
    CallExpression,
    NewExpression,
    MetaProperty,
    SpreadElement,
    Argument,
    UpdateExpression,
    UnaryExpression,
    BinaryExpression,
    PrivateInExpression,
    LogicalExpression,
    ConditionalExpression,
    AssignmentExpression,
    AssignmentTarget,
    SimpleAssignmentTarget,
    AssignmentTargetPattern,
    ArrayAssignmentTarget,
    ObjectAssignmentTarget,
    AssignmentTargetWithDefault,
    SequenceExpression,
    Super,
    AwaitExpression,
    ChainExpression,
    ParenthesizedExpression,
    Directive,
    Hashbang,
    BlockStatement,
    VariableDeclaration,
    VariableDeclarator,
    EmptyStatement,
    ExpressionStatement,
    IfStatement,
    DoWhileStatement,
    WhileStatement,
    ForStatement,
    ForStatementInit,
    ForInStatement,
    ForOfStatement,
    ContinueStatement,
    BreakStatement,
    ReturnStatement,
    WithStatement,
    SwitchStatement,
    SwitchCase,
    LabeledStatement,
    ThrowStatement,
    TryStatement,
    CatchClause,
    CatchParameter,
    DebuggerStatement,
    AssignmentPattern,
    ObjectPattern,
    ArrayPattern,
    BindingRestElement,
    Function,
    FormalParameters,
    FormalParameter,
    FunctionBody,
    ArrowFunctionExpression,
    YieldExpression,
    Class,
    ClassBody,
    MethodDefinition,
    PropertyDefinition,
    PrivateIdentifier,
    StaticBlock,
    ModuleDeclaration,
    ImportExpression,
    ImportDeclaration,
    ImportSpecifier,
    ImportDefaultSpecifier,
    ImportNamespaceSpecifier,
    ExportNamedDeclaration,
    ExportDefaultDeclaration,
    ExportAllDeclaration,
    ExportSpecifier,
    Decorator,
    /// A node of a type annotation or of another TypeScript-only form.
    TypeScript,
    /// A node of a JSX element.
    Jsx,
}

/// A node as an analysis pass hands it out: the root with the whole tree
/// below it, or any other node by its kind alone.
#[derive(Debug, PartialEq, Eq)]
pub enum AstKind {
    Program(Program),
    Other(NodeKind),
}

} // verus!
