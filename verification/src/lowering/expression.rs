//! Lowering of expressions.

use crate::ast::{
    Argument, ArrayElement, AssignmentExpression, AssignmentOperator, AssignmentTarget,
    BinaryOperator, BindingPattern, ComputedMemberExpression, Expression, ExpressionKind,
    ObjectProperty, PropertyKey, SimpleAssignmentTarget, StaticMemberExpression, UnaryOperator,
    UpdateExpression, UpdateOperator,
};
use crate::lowering::error::{AssignmentTargetKind, LowerError};
use crate::lowering::model::{
    assignment_symbol, binary_method, builtin_accessor, callee_is_object, gather,
    lemma_gather_fails, lemma_gather_next, lower_argument, lower_arguments, lower_assignment,
    lower_binding_pattern, lower_computed_member_read, lower_computed_member_write, lower_element,
    lower_elements, lower_expression, lower_properties, lower_property, lower_static_member_read,
    lower_static_member_write, lower_update, names_binding, number_text, taken, unary_function,
    Lowered,
};
use crate::text::{concat_strings, escape_string, join_strings, same_text, texts};
use vstd::prelude::*;
use vstd::string::*;

verus! {

/// `result` is the text `expected`, or the error `expected`.
pub open spec fn is_lowered(result: Result<String, LowerError>, expected: Lowered) -> bool {
    match expected {
        Ok(text) => result matches Ok(s) && s@ == text,
        Err(e) => result == Err::<String, LowerError>(e),
    }
}

/// `result` holds the texts `expected` in order, or is the error `expected`.
pub open spec fn are_lowered(
    result: Result<Vec<String>, LowerError>,
    expected: Result<Seq<Seq<char>>, LowerError>,
) -> bool {
    match expected {
        Ok(parts) => result matches Ok(v) && texts(v@) == parts,
        Err(e) => result == Err::<Vec<String>, LowerError>(e),
    }
}

/// The name of the runtime method that carries out `operator`.
pub fn binary_operator_to_rust_text(operator: BinaryOperator) -> (result: Result<
    &'static str,
    LowerError,
>)
    ensures
        match binary_method(operator) {
            Ok(name) => result matches Ok(s) && s@ == name,
            Err(e) => result == Err::<&'static str, LowerError>(e),
        },
{
    match operator {
        BinaryOperator::Addition => Ok("add"),
        BinaryOperator::Subtraction => Ok("sub"),
        BinaryOperator::Division => Ok("divide"),
        BinaryOperator::LessThan => Ok("less"),
        BinaryOperator::Multiplication => Ok("mult"),
        _ => Err(LowerError::UnsupportedBinaryOperator(operator)),
    }
}

/// The name of the runtime function that carries out `operator`.
pub fn unary_operator_to_rust_text(operator: UnaryOperator) -> (result: Result<
    &'static str,
    LowerError,
>)
    ensures
        match unary_function(operator) {
            Ok(name) => result matches Ok(s) && s@ == name,
            Err(e) => result == Err::<&'static str, LowerError>(e),
        },
{
    match operator {
        UnaryOperator::UnaryNegation => Ok("negate"),
        UnaryOperator::UnaryPlus => Ok("plus"),
        _ => Err(LowerError::UnsupportedUnaryOperator(operator)),
    }
}

/// The spelling of `operator`, for the four operators that can be spelled
/// here.
pub fn assignment_operator_to_rust_text(operator: AssignmentOperator) -> (result: Result<
    &'static str,
    LowerError,
>)
    ensures
        match assignment_symbol(operator) {
            Ok(symbol) => result matches Ok(s) && s@ == symbol,
            Err(e) => result == Err::<&'static str, LowerError>(e),
        },
{
    match operator {
        AssignmentOperator::Assign => Ok("="),
        AssignmentOperator::Addition => Ok("+="),
        AssignmentOperator::Subtraction => Ok("-="),
        AssignmentOperator::Multiplication => Ok("*="),
        _ => Err(
            LowerError::UnsupportedAssignment {
                target: AssignmentTargetKind::Identifier,
                operator,
            },
        ),
    }
}

/// Whether a call of `callee` goes through the runtime's `call`.
pub fn is_callee_an_object(callee: &Expression) -> (is_object: bool)
    ensures
        is_object == callee_is_object(*callee),
    decreases callee,
{
    match callee {
        Expression::Identifier(_) => false,
        Expression::Other(ExpressionKind::FunctionExpression) => false,
        Expression::Other(ExpressionKind::ArrowFunctionExpression) => false,
        Expression::ParenthesizedExpression(inner) => is_callee_an_object(inner),
        _ => true,
    }
}

/// The name that `pattern` binds.
pub fn binding_pattern_to_rust_text(pattern: &BindingPattern) -> (result: Result<
    String,
    LowerError,
>)
    ensures
        is_lowered(result, lower_binding_pattern(*pattern)),
{
    match pattern {
        BindingPattern::BindingIdentifier(name) => Ok(name.clone()),
        _ => Err(LowerError::UnsupportedBindingPattern),
    }
}

/// Lowers `++` and `--`.
pub fn update_expression_to_rust_text(expression: &UpdateExpression) -> (result: Result<
    String,
    LowerError,
>)
    ensures
        is_lowered(result, lower_update(*expression)),
{
    let name = match &expression.argument {
        SimpleAssignmentTarget::AssignmentTargetIdentifier(name) => name.as_str(),
        SimpleAssignmentTarget::Other => {
            return Err(LowerError::UnsupportedUpdateTarget);
        },
    };
    let method = match expression.operator {
        UpdateOperator::Decrement => "sub",
        UpdateOperator::Increment => "add",
    };
    let mut step = String::from_str(name);
    step.append(" = ");
    step.append(name);
    step.append(".");
    step.append(method);
    step.append("(JsValue::Number(1.0)); ");
    if expression.prefix {
        let mut out = String::from_str("{ ");
        out.append(step.as_str());
        out.append("(");
        out.append(name);
        out.append(").clone() }");
        Ok(out)
    } else {
        let mut out = String::from_str("{ let tmp = (");
        out.append(name);
        out.append(").clone(); ");
        out.append(step.as_str());
        out.append("tmp }");
        Ok(out)
    }
}

/// Whether `expression` is the name of a binding, looking through
/// parentheses.
pub fn is_binding_name(expression: &Expression) -> (yes: bool)
    ensures
        yes == names_binding(*expression),
    decreases expression,
{
    match expression {
        Expression::Identifier(_) => true,
        Expression::ParenthesizedExpression(inner) => is_binding_name(inner),
        _ => false,
    }
}

/// The text for `expression`, lowered to `text`, where its value is taken
/// over: a copy of a binding, the text as it is of anything else.
pub fn taken_text(expression: &Expression, text: String) -> (out: String)
    ensures
        out@ == taken(*expression, text@),
{
    if is_binding_name(expression) {
        let mut out = String::from_str("(");
        out.append(text.as_str());
        out.append(").clone()");
        out
    } else {
        text
    }
}

/// Writes a number, given by its digits, as a double-precision literal.
fn number_literal_text(digits: &str) -> (out: String)
    ensures
        out@ == number_text(digits@),
{
    if same_text(digits, "inf") {
        String::from_str("f64::INFINITY")
    } else {
        let mut out = String::from_str(digits);
        out.append("f64");
        out
    }
}

/// The accessor for `object.property` where that names a built-in binding.
fn builtin_accessor_text(object: &str, property: &str) -> (accessor: Option<&'static str>)
    ensures
        match builtin_accessor(object@, property@) {
            Some(text) => accessor matches Some(s) && s@ == text,
            None => accessor is None,
        },
{
    if same_text(object, "Math") && same_text(property, "PI") {
        Some("math().PI")
    } else if same_text(object, "Math") && same_text(property, "sqrt") {
        Some("math().sqrt")
    } else if same_text(object, "process") && same_text(property, "argv") {
        Some("process().argv")
    } else if same_text(object, "console") && same_text(property, "log") {
        Some("console().log")
    } else {
        None
    }
}

/// Lowers an expression.
pub fn expression_to_rust_text(expression: &Expression) -> (result: Result<String, LowerError>)
    ensures
        is_lowered(result, lower_expression(*expression)),
    decreases expression,
{
    match expression {
        Expression::AssignmentExpression(exp) => assignment_expression_to_rust_text(exp),
        Expression::BinaryExpression(exp) => {
            let l = expression_to_rust_text(&exp.left)?;
            let r = expression_to_rust_text(&exp.right)?;
            let method = binary_operator_to_rust_text(exp.operator)?;
            let mut out = String::from_str("(");
            out.append(l.as_str());
            out.append(").");
            out.append(method);
            out.append("((");
            out.append(r.as_str());
            out.append(").clone())");
            Ok(out)
        },
        Expression::UnaryExpression(exp) => {
            let function = unary_operator_to_rust_text(exp.operator)?;
            let a = expression_to_rust_text(&exp.argument)?;
            let mut out = String::from_str(function);
            out.append("(");
            out.append(taken_text(&exp.argument, a).as_str());
            out.append(")");
            Ok(out)
        },
        Expression::StaticMemberExpression(exp) => static_member_read_to_rust_text(exp),
        Expression::ComputedMemberExpression(exp) => computed_member_read_to_rust_text(exp),
        Expression::BooleanLiteral(value) => {
            if *value {
                Ok(String::from_str("JsValue::Boolean(true)"))
            } else {
                Ok(String::from_str("JsValue::Boolean(false)"))
            }
        },
        Expression::NullLiteral => Ok(String::from_str("JsValue::Null")),
        Expression::NumericLiteral(value) => {
            let mut out = String::from_str("JsValue::Number(");
            out.append(number_literal_text(value.as_str()).as_str());
            out.append(")");
            Ok(out)
        },
        Expression::StringLiteral(value) => {
            let quoted = escape_string(value.as_str());
            let mut out = String::from_str("JsValue::from(\"");
            out.append(quoted.as_str());
            out.append("\")");
            Ok(out)
        },
        Expression::ObjectExpression(properties) => {
            let entries = properties_to_rust_text(properties)?;
            let mut out = String::from_str("JsValue::from_entries([");
            out.append(concat_strings(&entries).as_str());
            out.append("])");
            Ok(out)
        },
        Expression::CallExpression(exp) => {
            let c = expression_to_rust_text(&exp.callee)?;
            let args = arguments_to_rust_text(&exp.arguments)?;
            let args_text = join_strings(&args, ", ");
            if is_callee_an_object(&exp.callee) {
                let mut out = String::from_str("(");
                out.append(c.as_str());
                out.append(").call(&[");
                out.append(args_text.as_str());
                out.append("])");
                Ok(out)
            } else {
                let mut out = c;
                out.append("(");
                out.append(args_text.as_str());
                out.append(")");
                Ok(out)
            }
        },
        Expression::ArrayExpression(elements) => {
            let items = elements_to_rust_text(elements)?;
            let mut out = String::from_str("JsValue::new_array(vec![");
            out.append(join_strings(&items, ", ").as_str());
            out.append("])");
            Ok(out)
        },
        Expression::UpdateExpression(exp) => update_expression_to_rust_text(exp),
        Expression::Identifier(name) => Ok(name.clone()),
        Expression::ParenthesizedExpression(inner) => {
            let text = expression_to_rust_text(inner)?;
            let mut out = String::from_str("(");
            out.append(text.as_str());
            out.append(")");
            Ok(out)
        },
        Expression::Other(kind) => Err(LowerError::UnsupportedExpression(*kind)),
    }
}

/// Lowers the entries of an object literal, each to its own text.
fn properties_to_rust_text(properties: &Vec<ObjectProperty>) -> (result: Result<
    Vec<String>,
    LowerError,
>)
    ensures
        are_lowered(result, gather(lower_properties(properties@))),
    decreases properties@,
{
    let ghost all = lower_properties(properties@);
    let mut parts: Vec<String> = Vec::new();
    let mut i: usize = 0;
    assert(texts(parts@) =~= Seq::empty());
    while i < properties.len()
        invariant
            i <= properties.len(),
            all == lower_properties(properties@),
            parts.len() == i,
            gather(all.take(i as int)) == Ok::<Seq<Seq<char>>, LowerError>(texts(parts@)),
        decreases properties.len() - i,
    {
        proof {
            lemma_gather_next(all, i as int);
        }
        let ghost before = texts(parts@);
        let piece = match &properties[i] {
            ObjectProperty::SpreadProperty => Err(LowerError::SpreadElement),
            ObjectProperty::Property { key, value } => match key {
                PropertyKey::StaticIdentifier(name) => {
                    match expression_to_rust_text(value) {
                        Err(e) => Err(e),
                        Ok(v) => {
                            let mut out = String::from_str("(\"");
                            out.append(name.as_str());
                            out.append("\".into(), ");
                            out.append(taken_text(value, v).as_str());
                            out.append("),");
                            Ok(out)
                        },
                    }
                },
                _ => Err(LowerError::UnsupportedPropertyKey),
            },
        };
        assert(is_lowered(piece, lower_property(properties@[i as int])));
        match piece {
            Err(e) => {
                proof {
                    lemma_gather_fails(all, i + 1);
                }
                return Err(e);
            },
            Ok(text) => {
                parts.push(text);
            },
        }
        assert(texts(parts@) =~= before.push(parts@[i as int]@));
        i += 1;
    }
    proof {
        assert(all.take(i as int) =~= all);
    }
    Ok(parts)
}

/// Lowers the arguments of a call, each to its own text.
fn arguments_to_rust_text(arguments: &Vec<Argument>) -> (result: Result<Vec<String>, LowerError>)
    ensures
        are_lowered(result, gather(lower_arguments(arguments@))),
    decreases arguments@,
{
    let ghost all = lower_arguments(arguments@);
    let mut parts: Vec<String> = Vec::new();
    let mut i: usize = 0;
    assert(texts(parts@) =~= Seq::empty());
    while i < arguments.len()
        invariant
            i <= arguments.len(),
            all == lower_arguments(arguments@),
            parts.len() == i,
            gather(all.take(i as int)) == Ok::<Seq<Seq<char>>, LowerError>(texts(parts@)),
        decreases arguments.len() - i,
    {
        proof {
            lemma_gather_next(all, i as int);
        }
        let ghost before = texts(parts@);
        let piece = match &arguments[i] {
            Argument::SpreadElement => Err(LowerError::SpreadElement),
            Argument::Expression(e) => match expression_to_rust_text(e) {
                Err(e) => Err(e),
                Ok(text) => {
                    let mut out = String::from_str("(");
                    out.append(text.as_str());
                    out.append(").clone()");
                    Ok(out)
                },
            },
        };
        assert(is_lowered(piece, lower_argument(arguments@[i as int])));
        match piece {
            Err(e) => {
                proof {
                    lemma_gather_fails(all, i + 1);
                }
                return Err(e);
            },
            Ok(text) => {
                parts.push(text);
            },
        }
        assert(texts(parts@) =~= before.push(parts@[i as int]@));
        i += 1;
    }
    proof {
        assert(all.take(i as int) =~= all);
    }
    Ok(parts)
}

/// Lowers the elements of an array literal, each to its own text.
fn elements_to_rust_text(elements: &Vec<ArrayElement>) -> (result: Result<Vec<String>, LowerError>)
    ensures
        are_lowered(result, gather(lower_elements(elements@))),
    decreases elements@,
{
    let ghost all = lower_elements(elements@);
    let mut parts: Vec<String> = Vec::new();
    let mut i: usize = 0;
    assert(texts(parts@) =~= Seq::empty());
    while i < elements.len()
        invariant
            i <= elements.len(),
            all == lower_elements(elements@),
            parts.len() == i,
            gather(all.take(i as int)) == Ok::<Seq<Seq<char>>, LowerError>(texts(parts@)),
        decreases elements.len() - i,
    {
        proof {
            lemma_gather_next(all, i as int);
        }
        let ghost before = texts(parts@);
        let piece = match &elements[i] {
            ArrayElement::SpreadElement => Err(LowerError::SpreadElement),
            ArrayElement::Elision => Err(LowerError::Elision),
            ArrayElement::Expression(e) => match expression_to_rust_text(e) {
                Err(e) => Err(e),
                Ok(text) => Ok(taken_text(e, text)),
            },
        };
        assert(is_lowered(piece, lower_element(elements@[i as int])));
        match piece {
            Err(e) => {
                proof {
                    lemma_gather_fails(all, i + 1);
                }
                return Err(e);
            },
            Ok(text) => {
                parts.push(text);
            },
        }
        assert(texts(parts@) =~= before.push(parts@[i as int]@));
        i += 1;
    }
    proof {
        assert(all.take(i as int) =~= all);
    }
    Ok(parts)
}

/// Lowers an assignment: the right-hand side first, then the store that the
/// shape of the left-hand side asks for.
pub fn assignment_expression_to_rust_text(exp: &AssignmentExpression) -> (result: Result<
    String,
    LowerError,
>)
    ensures
        is_lowered(result, lower_assignment(*exp)),
    decreases exp,
{
    let right = expression_to_rust_text(&exp.right)?;
    let source = taken_text(&exp.right, right);
    let operator = exp.operator;
    match &exp.left {
        AssignmentTarget::AssignmentTargetIdentifier(target) => {
            let mut out = target.clone();
            out.append(" = ");
            let method = match operator {
                AssignmentOperator::Assign => {
                    out.append(source.as_str());
                    return Ok(out);
                },
                AssignmentOperator::Addition => "add",
                AssignmentOperator::Subtraction => "sub",
                AssignmentOperator::Division => "divide",
                AssignmentOperator::Multiplication => "mult",
                _ => {
                    return Err(
                        LowerError::UnsupportedAssignment {
                            target: AssignmentTargetKind::Identifier,
                            operator,
                        },
                    );
                },
            };
            out.append(target.as_str());
            out.append(".");
            out.append(method);
            out.append("(");
            out.append(source.as_str());
            out.append(")");
            Ok(out)
        },
        AssignmentTarget::StaticMemberExpression(member) => {
            let member_read = static_member_read_to_rust_text(member)?;
            let value = match operator {
                AssignmentOperator::Assign => source,
                AssignmentOperator::Addition => {
                    let mut sum = member_read;
                    sum.append(".add(");
                    sum.append(source.as_str());
                    sum.append(")");
                    sum
                },
                _ => {
                    return Err(
                        LowerError::UnsupportedAssignment {
                            target: AssignmentTargetKind::StaticMember,
                            operator,
                        },
                    );
                },
            };
            static_member_write_to_rust_text(member, value.as_str())
        },
        AssignmentTarget::ComputedMemberExpression(member) => {
            match operator {
                AssignmentOperator::Assign => {},
                _ => {
                    return Err(
                        LowerError::UnsupportedAssignment {
                            target: AssignmentTargetKind::ComputedMember,
                            operator,
                        },
                    );
                },
            }
            computed_member_write_to_rust_text(member, source.as_str())
        },
        AssignmentTarget::Other => Err(
            LowerError::UnsupportedAssignment { target: AssignmentTargetKind::Other, operator },
        ),
    }
}

/// Lowers reading `object[expression]`.
pub fn computed_member_read_to_rust_text(exp: &ComputedMemberExpression) -> (result: Result<
    String,
    LowerError,
>)
    ensures
        is_lowered(result, lower_computed_member_read(*exp)),
    decreases exp,
{
    let mut out = expression_to_rust_text(&exp.object)?;
    let key = expression_to_rust_text(&exp.expression)?;
    out.append(".get_prop((");
    out.append(key.as_str());
    out.append(").clone())");
    Ok(out)
}

/// Lowers writing `value_expr` to `object[expression]`.
pub fn computed_member_write_to_rust_text(exp: &ComputedMemberExpression, value_expr: &str) -> (
    result: Result<String, LowerError>)
    ensures
        is_lowered(result, lower_computed_member_write(*exp, value_expr@)),
    decreases exp,
{
    let mut out = expression_to_rust_text(&exp.object)?;
    let key = expression_to_rust_text(&exp.expression)?;
    out.append(".set_prop((");
    out.append(key.as_str());
    out.append(").clone(), ");
    out.append(value_expr);
    out.append(")");
    Ok(out)
}

/// Lowers reading `object.property`.
pub fn static_member_read_to_rust_text(exp: &StaticMemberExpression) -> (result: Result<
    String,
    LowerError,
>)
    ensures
        is_lowered(result, lower_static_member_read(*exp)),
    decreases exp,
{
    let prop_name = exp.property.as_str();
    if let Expression::Identifier(name) = &*exp.object {
        if let Some(accessor) = builtin_accessor_text(name.as_str(), prop_name) {
            return Ok(String::from_str(accessor));
        }
    }
    let mut out = expression_to_rust_text(&exp.object)?;
    out.append(".get_prop(JsValue::from(\"");
    out.append(prop_name);
    out.append("\"))");
    Ok(out)
}

/// Lowers writing `value_expr` to `object.property`.
pub fn static_member_write_to_rust_text(exp: &StaticMemberExpression, value_expr: &str) -> (result:
    Result<String, LowerError>)
    ensures
        is_lowered(result, lower_static_member_write(*exp, value_expr@)),
    decreases exp,
{
    let mut out = expression_to_rust_text(&exp.object)?;
    out.append(".set_prop(JsValue::from(\"");
    out.append(exp.property.as_str());
    out.append("\"), ");
    out.append(value_expr);
    out.append(")");
    Ok(out)
}

} // verus!
