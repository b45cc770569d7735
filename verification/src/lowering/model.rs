//! What lowering produces, as a function from the syntax tree to text.
//!
//! Every `lower_*` function gives either the complete text for its node or
//! the first construct, in evaluation order, that lowering does not cover.

use crate::ast::{
    Argument, ArrayElement, AssignmentExpression, AssignmentOperator, AssignmentTarget, AstKind,
    BinaryOperator, BindingPattern, ComputedMemberExpression, Expression, ExpressionKind,
    ForStatement, ForStatementInit, Function, ObjectProperty, Program, PropertyKey,
    SimpleAssignmentTarget, Statement, StaticMemberExpression, UnaryOperator, UpdateExpression,
    UpdateOperator, VariableDeclaration, VariableDeclarationKind, VariableDeclarator,
};
use crate::lowering::error::{AssignmentTargetKind, LowerError};
use crate::text::{concat, escape, join};
use vstd::prelude::*;

verus! {

/// Lowered text, or the reason there is none.
pub type Lowered = Result<Seq<char>, LowerError>;

/// All the values of `results` if every one is there, else the first error.
pub open spec fn gather<T>(results: Seq<Result<T, LowerError>>) -> Result<Seq<T>, LowerError>
    decreases results.len(),
{
    if results.len() == 0 {
        Ok(Seq::empty())
    } else {
        match gather(results.drop_last()) {
            Err(e) => Err(e),
            Ok(init) => match results.last() {
                Err(e) => Err(e),
                Ok(t) => Ok(init.push(t)),
            },
        }
    }
}

/// One more result decides `gather` of a prefix as it decides `gather`.
pub proof fn lemma_gather_next<T>(results: Seq<Result<T, LowerError>>, i: int)
    requires
        0 <= i < results.len(),
    ensures
        gather(results.take(i + 1)) == match gather(results.take(i)) {
            Err(e) => Err(e),
            Ok(init) => match results[i] {
                Err(e) => Err(e),
                Ok(t) => Ok(init.push(t)),
            },
        },
{
    assert(results.take(i + 1).drop_last() =~= results.take(i));
}

/// An error among the first `i` results is the error of the whole.
pub proof fn lemma_gather_fails<T>(results: Seq<Result<T, LowerError>>, i: int)
    requires
        0 <= i <= results.len(),
        gather(results.take(i)) is Err,
    ensures
        gather(results) == gather(results.take(i)),
    decreases results.len() - i,
{
    if i == results.len() {
        assert(results.take(i) =~= results);
    } else {
        lemma_gather_next(results, i);
        lemma_gather_fails(results, i + 1);
    }
}

/// Where `gather` gives values, every result was one.
pub proof fn lemma_gather_all<T>(results: Seq<Result<T, LowerError>>, i: int)
    requires
        0 <= i < results.len(),
        gather(results) is Ok,
    ensures
        results[i] is Ok,
    decreases results.len(),
{
    if i < results.len() - 1 {
        lemma_gather_all(results.drop_last(), i);
    }
}

/// The runtime method that carries out a binary operator.
pub open spec fn binary_method(operator: BinaryOperator) -> Lowered {
    match operator {
        BinaryOperator::Addition => Ok("add"@),
        BinaryOperator::Subtraction => Ok("sub"@),
        BinaryOperator::Division => Ok("divide"@),
        BinaryOperator::LessThan => Ok("less"@),
        BinaryOperator::Multiplication => Ok("mult"@),
        _ => Err(LowerError::UnsupportedBinaryOperator(operator)),
    }
}

/// The runtime function that carries out a unary operator.
pub open spec fn unary_function(operator: UnaryOperator) -> Lowered {
    match operator {
        UnaryOperator::UnaryNegation => Ok("negate"@),
        UnaryOperator::UnaryPlus => Ok("plus"@),
        _ => Err(LowerError::UnsupportedUnaryOperator(operator)),
    }
}

/// The source spelling of the assignment operators that have one here.
pub open spec fn assignment_symbol(operator: AssignmentOperator) -> Lowered {
    match operator {
        AssignmentOperator::Assign => Ok("="@),
        AssignmentOperator::Addition => Ok("+="@),
        AssignmentOperator::Subtraction => Ok("-="@),
        AssignmentOperator::Multiplication => Ok("*="@),
        _ => Err(
            LowerError::UnsupportedAssignment {
                target: AssignmentTargetKind::Identifier,
                operator,
            },
        ),
    }
}

/// The runtime method that a compound assignment applies before it stores,
/// for the arithmetic four: the method of the matching binary operator.
pub open spec fn compound_method(operator: AssignmentOperator) -> Option<Seq<char>> {
    match operator {
        AssignmentOperator::Addition => Some("add"@),
        AssignmentOperator::Subtraction => Some("sub"@),
        AssignmentOperator::Multiplication => Some("mult"@),
        AssignmentOperator::Division => Some("divide"@),
        _ => None,
    }
}

/// The accessor of a built-in binding, for the dotted names that have one.
pub open spec fn builtin_accessor(object: Seq<char>, property: Seq<char>) -> Option<Seq<char>> {
    if object == "Math"@ && property == "PI"@ {
        Some("math().PI"@)
    } else if object == "Math"@ && property == "sqrt"@ {
        Some("math().sqrt"@)
    } else if object == "process"@ && property == "argv"@ {
        Some("process().argv"@)
    } else if object == "console"@ && property == "log"@ {
        Some("console().log"@)
    } else {
        None
    }
}

/// The accessor that stands for reading `property` of `object`, where
/// `object` is the bare name of a built-in binding that has that property.
pub open spec fn builtin_read(object: Expression, property: Seq<char>) -> Option<Seq<char>> {
    match object {
        Expression::Identifier(name) => builtin_accessor(name@, property),
        _ => None,
    }
}

/// Whether a callee's shape says that it evaluates to an object, which is
/// invoked through the runtime: everything but a plain name and a function
/// or arrow literal, looking through parentheses.
pub open spec fn callee_is_object(callee: Expression) -> bool
    decreases callee,
{
    match callee {
        Expression::Identifier(_) => false,
        Expression::Other(ExpressionKind::FunctionExpression) => false,
        Expression::Other(ExpressionKind::ArrowFunctionExpression) => false,
        Expression::ParenthesizedExpression(inner) => callee_is_object(*inner),
        _ => true,
    }
}

/// A property read by a literal name.
pub open spec fn static_read_text(object: Seq<char>, property: Seq<char>) -> Seq<char> {
    object + ".get_prop(JsValue::from(\""@ + property + "\"))"@
}

/// A property write by a literal name.
pub open spec fn static_write_text(
    object: Seq<char>,
    property: Seq<char>,
    value: Seq<char>,
) -> Seq<char> {
    object + ".set_prop(JsValue::from(\""@ + property + "\"), "@ + value + ")"@
}

/// A property read by an evaluated key.
pub open spec fn computed_read_text(object: Seq<char>, key: Seq<char>) -> Seq<char> {
    object + ".get_prop(("@ + key + ").clone())"@
}

/// A property write by an evaluated key.
pub open spec fn computed_write_text(
    object: Seq<char>,
    key: Seq<char>,
    value: Seq<char>,
) -> Seq<char> {
    object + ".set_prop(("@ + key + ").clone(), "@ + value + ")"@
}

/// Whether an expression is the name of a binding, looking through
/// parentheses: its value is then the binding itself.
pub open spec fn names_binding(expression: Expression) -> bool
    decreases expression,
{
    match expression {
        Expression::Identifier(_) => true,
        Expression::ParenthesizedExpression(inner) => names_binding(*inner),
        _ => false,
    }
}

/// The text for an expression, lowered to `text`, where its value is taken
/// over: stored, bound, put into an object or handed to a function. Of a
/// binding a copy is taken, so that the binding keeps its value: numbers
/// and the like are copied, handles are shared.
pub open spec fn taken(expression: Expression, text: Seq<char>) -> Seq<char> {
    if names_binding(expression) {
        "("@ + text + ").clone()"@
    } else {
        text
    }
}

/// How a number is written: its digits as a double-precision literal, and
/// infinity, which has no digits, by its name.
pub open spec fn number_text(digits: Seq<char>) -> Seq<char> {
    if digits == "inf"@ {
        "f64::INFINITY"@
    } else {
        digits + "f64"@
    }
}

/// The name that a pattern binds, if the pattern is a plain name.
pub open spec fn lower_binding_pattern(pattern: BindingPattern) -> Lowered {
    match pattern {
        BindingPattern::BindingIdentifier(name) => Ok(name@),
        _ => Err(LowerError::UnsupportedBindingPattern),
    }
}

/// `++name`, `--name`, `name++`, `name--` as a block that rebinds `name` to
/// itself plus or minus one. The prefix forms evaluate to a copy of the new
/// value; the postfix forms keep a copy of the old value in a temporary and
/// evaluate to that. Either way the binding holds the new value afterwards.
pub open spec fn lower_update(update: UpdateExpression) -> Lowered {
    match update.argument {
        SimpleAssignmentTarget::AssignmentTargetIdentifier(name) => {
            let method = match update.operator {
                UpdateOperator::Decrement => "sub"@,
                UpdateOperator::Increment => "add"@,
            };
            let step = name@ + " = "@ + name@ + "."@ + method + "(JsValue::Number(1.0)); "@;
            if update.prefix {
                Ok("{ "@ + step + "("@ + name@ + ").clone() }"@)
            } else {
                Ok("{ let tmp = ("@ + name@ + ").clone(); "@ + step + "tmp }"@)
            }
        },
        SimpleAssignmentTarget::Other => Err(LowerError::UnsupportedUpdateTarget),
    }
}

/// The text of an expression.
pub open spec fn lower_expression(expression: Expression) -> Lowered
    decreases expression,
{
    match expression {
        Expression::BooleanLiteral(value) => Ok(
            if value {
                "JsValue::Boolean(true)"@
            } else {
                "JsValue::Boolean(false)"@
            },
        ),
        Expression::NullLiteral => Ok("JsValue::Null"@),
        Expression::NumericLiteral(value) => Ok("JsValue::Number("@ + number_text(value@) + ")"@),
        Expression::StringLiteral(value) => Ok("JsValue::from(\""@ + escape(value@) + "\")"@),
        Expression::Identifier(name) => Ok(name@),
        Expression::ParenthesizedExpression(inner) => match lower_expression(*inner) {
            Err(e) => Err(e),
            Ok(text) => Ok("("@ + text + ")"@),
        },
        Expression::BinaryExpression(binary) => match lower_expression(*binary.left) {
            Err(e) => Err(e),
            Ok(l) => match lower_expression(*binary.right) {
                Err(e) => Err(e),
                Ok(r) => match binary_method(binary.operator) {
                    Err(e) => Err(e),
                    Ok(method) => Ok("("@ + l + ")."@ + method + "(("@ + r + ").clone())"@),
                },
            },
        },
        Expression::UnaryExpression(unary) => match unary_function(unary.operator) {
            Err(e) => Err(e),
            Ok(function) => match lower_expression(*unary.argument) {
                Err(e) => Err(e),
                Ok(a) => Ok(function + "("@ + taken(*unary.argument, a) + ")"@),
            },
        },
        Expression::StaticMemberExpression(member) => lower_static_member_read(member),
        Expression::ComputedMemberExpression(member) => lower_computed_member_read(member),
        Expression::ObjectExpression(properties) => match gather(
            lower_properties(properties@),
        ) {
            Err(e) => Err(e),
            Ok(entries) => Ok("JsValue::from_entries(["@ + concat(entries) + "])"@),
        },
        Expression::CallExpression(call) => match lower_expression(*call.callee) {
            Err(e) => Err(e),
            Ok(c) => match gather(lower_arguments(call.arguments@)) {
                Err(e) => Err(e),
                Ok(args) => Ok(
                    if callee_is_object(*call.callee) {
                        "("@ + c + ").call(&["@ + join(args, ", "@) + "])"@
                    } else {
                        c + "("@ + join(args, ", "@) + ")"@
                    },
                ),
            },
        },
        Expression::ArrayExpression(elements) => match gather(lower_elements(elements@)) {
            Err(e) => Err(e),
            Ok(items) => Ok("JsValue::new_array(vec!["@ + join(items, ", "@) + "])"@),
        },
        Expression::UpdateExpression(update) => lower_update(update),
        Expression::AssignmentExpression(assignment) => lower_assignment(assignment),
        Expression::Other(kind) => Err(LowerError::UnsupportedExpression(kind)),
    }
}

/// Reading `object.property`: the accessor of a built-in binding where the
/// dotted name has one, else a property read by the literal name.
pub open spec fn lower_static_member_read(member: StaticMemberExpression) -> Lowered
    decreases member,
{
    match builtin_read(*member.object, member.property@) {
        Some(accessor) => Ok(accessor),
        None => match lower_expression(*member.object) {
            Err(e) => Err(e),
            Ok(o) => Ok(static_read_text(o, member.property@)),
        },
    }
}

/// Writing `value` to `object.property`: a property write by the literal
/// name.
pub open spec fn lower_static_member_write(
    member: StaticMemberExpression,
    value: Seq<char>,
) -> Lowered
    decreases member,
{
    match lower_expression(*member.object) {
        Err(e) => Err(e),
        Ok(o) => Ok(static_write_text(o, member.property@, value)),
    }
}

/// Reading `object[expression]`: a property read by the evaluated key.
pub open spec fn lower_computed_member_read(member: ComputedMemberExpression) -> Lowered
    decreases member,
{
    match lower_expression(*member.object) {
        Err(e) => Err(e),
        Ok(o) => match lower_expression(*member.expression) {
            Err(e) => Err(e),
            Ok(key) => Ok(computed_read_text(o, key)),
        },
    }
}

/// Writing `value` to `object[expression]`: a property write by the
/// evaluated key.
pub open spec fn lower_computed_member_write(
    member: ComputedMemberExpression,
    value: Seq<char>,
) -> Lowered
    decreases member,
{
    match lower_expression(*member.object) {
        Err(e) => Err(e),
        Ok(o) => match lower_expression(*member.expression) {
            Err(e) => Err(e),
            Ok(key) => Ok(computed_write_text(o, key, value)),
        },
    }
}

/// An assignment: the right-hand side is lowered first, then the store that
/// the shape of the left-hand side asks for.
///
/// A plain name is rebound, under a compound operator to the result of the
/// operator's runtime method on the name and the right-hand side. A static
/// member is written through a property write; of the compound operators
/// only `+=` is there, and it reads the member first. A computed member
/// takes `=` only.
pub open spec fn lower_assignment(assignment: AssignmentExpression) -> Lowered
    decreases assignment,
{
    let operator = assignment.operator;
    match lower_expression(*assignment.right) {
        Err(e) => Err(e),
        Ok(right) => {
            let source = taken(*assignment.right, right);
            match assignment.left {
                AssignmentTarget::AssignmentTargetIdentifier(target) => {
                    if operator == AssignmentOperator::Assign {
                        Ok(target@ + " = "@ + source)
                    } else {
                        match compound_method(operator) {
                            Some(method) => Ok(
                                target@ + " = "@ + target@ + "."@ + method + "("@ + source + ")"@,
                            ),
                            None => Err(
                                LowerError::UnsupportedAssignment {
                                    target: AssignmentTargetKind::Identifier,
                                    operator,
                                },
                            ),
                        }
                    }
                },
                AssignmentTarget::StaticMemberExpression(member) => {
                    match lower_static_member_read(member) {
                        Err(e) => Err(e),
                        Ok(read) => {
                            if operator == AssignmentOperator::Assign {
                                lower_static_member_write(member, source)
                            } else if operator == AssignmentOperator::Addition {
                                lower_static_member_write(member, read + ".add("@ + source + ")"@)
                            } else {
                                Err(
                                    LowerError::UnsupportedAssignment {
                                        target: AssignmentTargetKind::StaticMember,
                                        operator,
                                    },
                                )
                            }
                        },
                    }
                },
                AssignmentTarget::ComputedMemberExpression(member) => {
                    if operator == AssignmentOperator::Assign {
                        lower_computed_member_write(member, source)
                    } else {
                        Err(
                            LowerError::UnsupportedAssignment {
                                target: AssignmentTargetKind::ComputedMember,
                                operator,
                            },
                        )
                    }
                },
                AssignmentTarget::Other => Err(
                    LowerError::UnsupportedAssignment {
                        target: AssignmentTargetKind::Other,
                        operator,
                    },
                ),
            }
        },
    }
}

/// One entry of an object literal: the key as a string, then the value.
pub open spec fn lower_property(property: ObjectProperty) -> Lowered
    decreases property,
{
    match property {
        ObjectProperty::SpreadProperty => Err(LowerError::SpreadElement),
        ObjectProperty::Property { key, value } => match key {
            PropertyKey::StaticIdentifier(name) => match lower_expression(value) {
                Err(e) => Err(e),
                Ok(v) => Ok("(\""@ + name@ + "\".into(), "@ + taken(value, v) + "),"@),
            },
            _ => Err(LowerError::UnsupportedPropertyKey),
        },
    }
}

/// The entries of an object literal, one by one.
pub open spec fn lower_properties(properties: Seq<ObjectProperty>) -> Seq<Lowered>
    decreases properties,
{
    Seq::new(
        properties.len(),
        |i: int|
            if 0 <= i < properties.len() {
                lower_property(properties[i])
            } else {
                arbitrary()
            },
    )
}

/// One call argument: a copy of the handle that the expression gives.
pub open spec fn lower_argument(argument: Argument) -> Lowered
    decreases argument,
{
    match argument {
        Argument::SpreadElement => Err(LowerError::SpreadElement),
        Argument::Expression(e) => match lower_expression(e) {
            Err(e) => Err(e),
            Ok(text) => Ok("("@ + text + ").clone()"@),
        },
    }
}

/// The arguments of a call, one by one.
pub open spec fn lower_arguments(arguments: Seq<Argument>) -> Seq<Lowered>
    decreases arguments,
{
    Seq::new(
        arguments.len(),
        |i: int|
            if 0 <= i < arguments.len() {
                lower_argument(arguments[i])
            } else {
                arbitrary()
            },
    )
}

/// One element of an array literal.
pub open spec fn lower_element(element: ArrayElement) -> Lowered
    decreases element,
{
    match element {
        ArrayElement::SpreadElement => Err(LowerError::SpreadElement),
        ArrayElement::Elision => Err(LowerError::Elision),
        ArrayElement::Expression(e) => match lower_expression(e) {
            Err(e) => Err(e),
            Ok(text) => Ok(taken(e, text)),
        },
    }
}

/// The elements of an array literal, one by one.
pub open spec fn lower_elements(elements: Seq<ArrayElement>) -> Seq<Lowered>
    decreases elements,
{
    Seq::new(
        elements.len(),
        |i: int|
            if 0 <= i < elements.len() {
                lower_element(elements[i])
            } else {
                arbitrary()
            },
    )
}

/// The binding keyword for a declaration keyword: a constant becomes an
/// immutable binding, a `let` variable a mutable one.
pub open spec fn binding_keyword(kind: VariableDeclarationKind) -> Lowered {
    match kind {
        VariableDeclarationKind::Const => Ok("let"@),
        VariableDeclarationKind::Let => Ok("let mut"@),
        _ => Err(LowerError::UnsupportedDeclarationKind(kind)),
    }
}

/// What a variable starts as: its initializer, or the undefined value where
/// it has none.
pub open spec fn lower_initializer(init: Option<Expression>) -> Lowered {
    match init {
        Some(init) => match lower_expression(init) {
            Err(e) => Err(e),
            Ok(text) => Ok("= "@ + taken(init, text)),
        },
        None => Ok("= JsValue::Undefined"@),
    }
}

/// One declarator: a binding of its own, on a line of its own.
pub open spec fn lower_declarator(declarator: VariableDeclarator) -> Lowered {
    match binding_keyword(declarator.kind) {
        Err(e) => Err(e),
        Ok(keyword) => match lower_binding_pattern(declarator.id) {
            Err(e) => Err(e),
            Ok(name) => match lower_initializer(declarator.init) {
                Err(e) => Err(e),
                Ok(init) => Ok(keyword + " "@ + name + " "@ + init + ";\n"@),
            },
        },
    }
}

/// The declarators of a declaration, one by one.
pub open spec fn lower_declarators(declarators: Seq<VariableDeclarator>) -> Seq<Lowered> {
    Seq::new(declarators.len(), |i: int| lower_declarator(declarators[i]))
}

/// A variable declaration: one binding per declarator, in order.
pub open spec fn lower_variable_declaration(declaration: VariableDeclaration) -> Lowered {
    match gather(lower_declarators(declaration.declarations@)) {
        Err(e) => Err(e),
        Ok(bindings) => Ok(concat(bindings)),
    }
}

/// One parameter: a plain name that takes a dynamic value.
pub open spec fn lower_parameter(parameter: BindingPattern) -> Lowered {
    match lower_binding_pattern(parameter) {
        Err(e) => Err(e),
        Ok(name) => Ok(name + ": JsValue"@),
    }
}

/// The parameters of a function, one by one.
pub open spec fn lower_parameters(parameters: Seq<BindingPattern>) -> Seq<Lowered> {
    Seq::new(parameters.len(), |i: int| lower_parameter(parameters[i]))
}

/// An expression as a statement: it is evaluated and its value dropped.
pub open spec fn lower_expression_statement(expression: Expression) -> Lowered {
    match lower_expression(expression) {
        Err(e) => Err(e),
        Ok(text) => Ok(taken(expression, text) + ";"@),
    }
}

/// The first clause of a `for` statement, as a statement of its own.
pub open spec fn lower_for_init(init: Option<ForStatementInit>) -> Lowered {
    match init {
        None => Ok(Seq::empty()),
        Some(ForStatementInit::VariableDeclaration(declaration)) => lower_variable_declaration(
            declaration,
        ),
        Some(ForStatementInit::Expression(e)) => lower_expression_statement(e),
    }
}

/// The test of a `for` statement: leave the loop when it is falsy.
pub open spec fn lower_for_test(test: Option<Expression>) -> Lowered {
    match test {
        None => Ok(Seq::empty()),
        Some(e) => match lower_expression(e) {
            Err(e) => Err(e),
            Ok(text) => Ok("if ("@ + text + ").falsy() { break; }"@),
        },
    }
}

/// The update of a `for` statement, as a statement of its own.
pub open spec fn lower_for_update(update: Option<Expression>) -> Lowered {
    match update {
        None => Ok(Seq::empty()),
        Some(e) => lower_expression_statement(e),
    }
}

/// What a `return` gives back: its argument, or the undefined value where it
/// has none.
pub open spec fn lower_return_argument(argument: Option<Expression>) -> Lowered {
    match argument {
        Some(e) => match lower_expression(e) {
            Err(e) => Err(e),
            Ok(text) => Ok(taken(e, text)),
        },
        None => Ok("JsValue::Undefined"@),
    }
}

/// The text of a statement.
pub open spec fn lower_statement(statement: Statement) -> Lowered
    decreases statement,
{
    match statement {
        Statement::FunctionDeclaration(function) => lower_function(function),
        Statement::ReturnStatement(argument) => match lower_return_argument(argument) {
            Err(e) => Err(e),
            Ok(text) => Ok("return "@ + text + ";"@),
        },
        Statement::VariableDeclaration(declaration) => lower_variable_declaration(declaration),
        Statement::ForStatement(for_statement) => lower_for(for_statement),
        Statement::BlockStatement(body) => match gather(lower_statements(body@)) {
            Err(e) => Err(e),
            Ok(lines) => Ok("{"@ + join(lines, "\n"@) + "}"@),
        },
        Statement::ExpressionStatement(e) => lower_expression_statement(e),
        Statement::Other(kind) => Err(LowerError::UnsupportedStatement(kind)),
    }
}

/// The statements of a sequence, one by one.
pub open spec fn lower_statements(statements: Seq<Statement>) -> Seq<Lowered>
    decreases statements,
{
    Seq::new(
        statements.len(),
        |i: int|
            if 0 <= i < statements.len() {
                lower_statement(statements[i])
            } else {
                arbitrary()
            },
    )
}

/// The statements of a function body, one per line; nothing for a
/// declaration without a body.
pub open spec fn lower_function_body(body: Option<Vec<Statement>>) -> Lowered
    decreases body,
{
    match body {
        None => Ok(Seq::empty()),
        Some(statements) => match gather(lower_statements(statements@)) {
            Err(e) => Err(e),
            Ok(lines) => Ok(join(lines, "\n"@)),
        },
    }
}

/// A function declaration: a local binding of a closure that takes one
/// dynamic value per parameter, runs the body and, where the body does not
/// return, returns the undefined value.
pub open spec fn lower_function(function: Function) -> Lowered
    decreases function,
{
    match function.id {
        None => Err(LowerError::UnnamedFunction),
        Some(name) => match gather(lower_parameters(function.params@)) {
            Err(e) => Err(e),
            Ok(params) => match lower_function_body(function.body) {
                Err(e) => Err(e),
                Ok(body) => Ok(
                    "let "@ + name@ + " = |"@ + join(params, ", "@) + "| -> JsValue { "@ + body
                        + " return JsValue::Undefined; }; "@,
                ),
            },
        },
    }
}

/// A `for` statement: the first clause once, then an unconditional loop
/// that evaluates the test and leaves when it is falsy, runs the body, and
/// runs the update.
pub open spec fn lower_for(for_statement: ForStatement) -> Lowered
    decreases for_statement,
{
    match lower_for_init(for_statement.init) {
        Err(e) => Err(e),
        Ok(init) => match lower_for_test(for_statement.test) {
            Err(e) => Err(e),
            Ok(test) => match lower_for_update(for_statement.update) {
                Err(e) => Err(e),
                Ok(update) => match lower_statement(*for_statement.body) {
                    Err(e) => Err(e),
                    Ok(body) => Ok(
                        init + "\nloop {\n"@ + test + "\n"@ + body + "\n"@ + update + "}"@,
                    ),
                },
            },
        },
    }
}

/// One top-level statement on a line of its own.
pub open spec fn lower_line(statement: Statement) -> Lowered {
    match lower_statement(statement) {
        Err(e) => Err(e),
        Ok(text) => Ok(text + "\n"@),
    }
}

/// The top-level statements, one by one.
pub open spec fn lower_lines(statements: Seq<Statement>) -> Seq<Lowered> {
    Seq::new(statements.len(), |i: int| lower_line(statements[i]))
}

/// A program: the runtime prelude as it is, then one entry point that holds
/// the top-level statements in order.
pub open spec fn lower_program(program: Program, prelude: Seq<char>) -> Lowered {
    match gather(lower_lines(program.body@)) {
        Err(e) => Err(e),
        Ok(lines) => Ok(prelude + "fn main() {\n"@ + concat(lines) + "}"@),
    }
}

/// The text for a node: that of the program, for the root.
pub open spec fn lower_node(node: AstKind, prelude: Seq<char>) -> Lowered {
    match node {
        AstKind::Program(program) => lower_program(program, prelude),
        AstKind::Other(kind) => Err(LowerError::UnsupportedNode(kind)),
    }
}

} // verus!
