use js_to_rust::ast::{
    Argument, ArrayElement, AssignmentExpression, AssignmentOperator, AssignmentTarget,
    BinaryExpression, BinaryOperator, BindingPattern, CallExpression, ComputedMemberExpression,
    Expression, ExpressionKind, ObjectProperty, PropertyKey, SimpleAssignmentTarget,
    StaticMemberExpression, UnaryExpression, UnaryOperator, UpdateExpression, UpdateOperator,
};
use js_to_rust::lowering::error::{AssignmentTargetKind, LowerError};
use js_to_rust::lowering::expression::{
    assignment_expression_to_rust_text, assignment_operator_to_rust_text,
    binary_operator_to_rust_text, binding_pattern_to_rust_text, computed_member_read_to_rust_text,
    computed_member_write_to_rust_text, expression_to_rust_text, is_binding_name,
    is_callee_an_object, static_member_read_to_rust_text, static_member_write_to_rust_text,
    taken_text, unary_operator_to_rust_text, update_expression_to_rust_text,
};

fn ident(name: &str) -> Expression {
    Expression::Identifier(name.to_string())
}

fn num(text: &str) -> Expression {
    Expression::NumericLiteral(text.to_string())
}

fn binary(left: Expression, operator: BinaryOperator, right: Expression) -> Expression {
    Expression::BinaryExpression(BinaryExpression {
        left: Box::new(left),
        operator,
        right: Box::new(right),
    })
}

fn member(object: Expression, property: &str) -> StaticMemberExpression {
    StaticMemberExpression { object: Box::new(object), property: property.to_string() }
}

fn computed(object: Expression, key: Expression) -> ComputedMemberExpression {
    ComputedMemberExpression { object: Box::new(object), expression: Box::new(key) }
}

fn assign(operator: AssignmentOperator, left: AssignmentTarget, right: Expression) -> Expression {
    Expression::AssignmentExpression(AssignmentExpression {
        operator,
        left,
        right: Box::new(right),
    })
}

fn call(callee: Expression, arguments: Vec<Argument>) -> Expression {
    Expression::CallExpression(CallExpression { callee: Box::new(callee), arguments })
}

fn update(operator: UpdateOperator, prefix: bool, name: &str) -> UpdateExpression {
    UpdateExpression {
        operator,
        prefix,
        argument: SimpleAssignmentTarget::AssignmentTargetIdentifier(name.to_string()),
    }
}

fn ok(text: &str) -> Result<String, LowerError> {
    Ok(text.to_string())
}

#[test]
fn numeric_literal_is_a_double() {
    assert_eq!(expression_to_rust_text(&num("1")), ok("JsValue::Number(1f64)"));
    assert_eq!(expression_to_rust_text(&num("0.5")), ok("JsValue::Number(0.5f64)"));
    assert_eq!(
        expression_to_rust_text(&num("3000000000")),
        ok("JsValue::Number(3000000000f64)")
    );
    assert_eq!(
        expression_to_rust_text(&num("1000000000000000000000")),
        ok("JsValue::Number(1000000000000000000000f64)")
    );
}

#[test]
fn literal_beyond_every_double_is_infinity() {
    assert_eq!(expression_to_rust_text(&num("inf")), ok("JsValue::Number(f64::INFINITY)"));
}

#[test]
fn binding_names_are_told_from_other_expressions() {
    assert!(is_binding_name(&ident("x")));
    assert!(is_binding_name(&Expression::ParenthesizedExpression(Box::new(ident("x")))));
    assert!(!is_binding_name(&num("1")));
    assert!(!is_binding_name(&binary(ident("a"), BinaryOperator::Addition, ident("b"))));
    assert!(!is_binding_name(&Expression::StaticMemberExpression(member(ident("o"), "p"))));
    assert_eq!(taken_text(&ident("x"), "x".to_string()), "(x).clone()");
    assert_eq!(
        taken_text(&Expression::ParenthesizedExpression(Box::new(ident("x"))), "(x)".to_string()),
        "((x)).clone()"
    );
    assert_eq!(taken_text(&num("1"), "JsValue::Number(1f64)".to_string()), "JsValue::Number(1f64)");
}

#[test]
fn other_literals_build_their_variant() {
    assert_eq!(
        expression_to_rust_text(&Expression::BooleanLiteral(true)),
        ok("JsValue::Boolean(true)")
    );
    assert_eq!(
        expression_to_rust_text(&Expression::BooleanLiteral(false)),
        ok("JsValue::Boolean(false)")
    );
    assert_eq!(expression_to_rust_text(&Expression::NullLiteral), ok("JsValue::Null"));
    assert_eq!(
        expression_to_rust_text(&Expression::StringLiteral("hi".to_string())),
        ok("JsValue::from(\"hi\")")
    );
}

#[test]
fn string_literal_is_escaped() {
    let text = expression_to_rust_text(&Expression::StringLiteral("a\"b\\c\nd\te\rf".to_string()));
    assert_eq!(text, ok("JsValue::from(\"a\\\"b\\\\c\\nd\\te\\rf\")"));
}

#[test]
fn identifier_is_its_name() {
    assert_eq!(expression_to_rust_text(&ident("total")), ok("total"));
}

#[test]
fn parentheses_are_kept() {
    let text = expression_to_rust_text(&Expression::ParenthesizedExpression(Box::new(ident("a"))));
    assert_eq!(text, ok("(a)"));
}

#[test]
fn binary_operators_call_runtime_methods() {
    let cases = [
        (BinaryOperator::Addition, "add"),
        (BinaryOperator::Subtraction, "sub"),
        (BinaryOperator::Multiplication, "mult"),
        (BinaryOperator::Division, "divide"),
        (BinaryOperator::LessThan, "less"),
    ];
    for (operator, method) in cases {
        assert_eq!(binary_operator_to_rust_text(operator), Ok(method));
        let text = expression_to_rust_text(&binary(ident("a"), operator, ident("b")));
        assert_eq!(text, Ok(format!("(a).{method}((b).clone())")));
    }
}

#[test]
fn binary_expression_nests() {
    let inner = binary(num("1"), BinaryOperator::Addition, num("2"));
    let text = expression_to_rust_text(&binary(inner, BinaryOperator::Multiplication, ident("x")));
    assert_eq!(
        text,
        ok("((JsValue::Number(1f64)).add((JsValue::Number(2f64)).clone())).mult((x).clone())")
    );
}

#[test]
fn unsupported_binary_operator_fails() {
    let text = expression_to_rust_text(&binary(ident("a"), BinaryOperator::Remainder, ident("b")));
    assert_eq!(text, Err(LowerError::UnsupportedBinaryOperator(BinaryOperator::Remainder)));
    assert_eq!(
        binary_operator_to_rust_text(BinaryOperator::StrictEquality),
        Err(LowerError::UnsupportedBinaryOperator(BinaryOperator::StrictEquality))
    );
}

#[test]
fn operands_fail_before_the_operator() {
    let bad = Expression::Other(ExpressionKind::ThisExpression);
    let text = expression_to_rust_text(&binary(ident("a"), BinaryOperator::Remainder, bad));
    assert_eq!(text, Err(LowerError::UnsupportedExpression(ExpressionKind::ThisExpression)));
}

#[test]
fn unary_operators_call_runtime_functions() {
    assert_eq!(unary_operator_to_rust_text(UnaryOperator::UnaryNegation), Ok("negate"));
    assert_eq!(unary_operator_to_rust_text(UnaryOperator::UnaryPlus), Ok("plus"));
    let negation = Expression::UnaryExpression(UnaryExpression {
        operator: UnaryOperator::UnaryNegation,
        argument: Box::new(ident("x")),
    });
    assert_eq!(expression_to_rust_text(&negation), ok("negate((x).clone())"));
    let plus = Expression::UnaryExpression(UnaryExpression {
        operator: UnaryOperator::UnaryPlus,
        argument: Box::new(num("3")),
    });
    assert_eq!(expression_to_rust_text(&plus), ok("plus(JsValue::Number(3f64))"));
}

#[test]
fn unsupported_unary_operator_fails_before_its_argument() {
    let not = Expression::UnaryExpression(UnaryExpression {
        operator: UnaryOperator::LogicalNot,
        argument: Box::new(Expression::Other(ExpressionKind::ThisExpression)),
    });
    assert_eq!(
        expression_to_rust_text(&not),
        Err(LowerError::UnsupportedUnaryOperator(UnaryOperator::LogicalNot))
    );
}

#[test]
fn update_expressions() {
    assert_eq!(
        update_expression_to_rust_text(&update(UpdateOperator::Increment, false, "i")),
        ok("{ let tmp = (i).clone(); i = i.add(JsValue::Number(1.0)); tmp }")
    );
    assert_eq!(
        update_expression_to_rust_text(&update(UpdateOperator::Decrement, false, "i")),
        ok("{ let tmp = (i).clone(); i = i.sub(JsValue::Number(1.0)); tmp }")
    );
    assert_eq!(
        update_expression_to_rust_text(&update(UpdateOperator::Increment, true, "i")),
        ok("{ i = i.add(JsValue::Number(1.0)); (i).clone() }")
    );
    assert_eq!(
        update_expression_to_rust_text(&update(UpdateOperator::Decrement, true, "i")),
        ok("{ i = i.sub(JsValue::Number(1.0)); (i).clone() }")
    );
    assert_eq!(
        expression_to_rust_text(&Expression::UpdateExpression(update(
            UpdateOperator::Increment,
            true,
            "n"
        ))),
        ok("{ n = n.add(JsValue::Number(1.0)); (n).clone() }")
    );
}

#[test]
fn update_of_a_member_fails() {
    let exp = UpdateExpression {
        operator: UpdateOperator::Increment,
        prefix: false,
        argument: SimpleAssignmentTarget::Other,
    };
    assert_eq!(update_expression_to_rust_text(&exp), Err(LowerError::UnsupportedUpdateTarget));
}

#[test]
fn assignment_to_a_name() {
    let target = || AssignmentTarget::AssignmentTargetIdentifier("x".to_string());
    let cases = [
        (AssignmentOperator::Assign, "x = (y).clone()"),
        (AssignmentOperator::Addition, "x = x.add((y).clone())"),
        (AssignmentOperator::Subtraction, "x = x.sub((y).clone())"),
        (AssignmentOperator::Multiplication, "x = x.mult((y).clone())"),
        (AssignmentOperator::Division, "x = x.divide((y).clone())"),
    ];
    for (operator, expected) in cases {
        assert_eq!(expression_to_rust_text(&assign(operator, target(), ident("y"))), ok(expected));
    }
    assert_eq!(
        expression_to_rust_text(&assign(AssignmentOperator::Assign, target(), num("2"))),
        ok("x = JsValue::Number(2f64)")
    );
    assert_eq!(
        expression_to_rust_text(&assign(AssignmentOperator::Remainder, target(), ident("y"))),
        Err(LowerError::UnsupportedAssignment {
            target: AssignmentTargetKind::Identifier,
            operator: AssignmentOperator::Remainder
        })
    );
}

#[test]
fn assignment_to_a_static_member() {
    let target = || AssignmentTarget::StaticMemberExpression(member(ident("o"), "p"));
    assert_eq!(
        expression_to_rust_text(&assign(AssignmentOperator::Assign, target(), ident("v"))),
        ok("o.set_prop(JsValue::from(\"p\"), (v).clone())")
    );
    assert_eq!(
        expression_to_rust_text(&assign(AssignmentOperator::Addition, target(), ident("v"))),
        ok("o.set_prop(JsValue::from(\"p\"), o.get_prop(JsValue::from(\"p\")).add((v).clone()))")
    );
    assert_eq!(
        expression_to_rust_text(&assign(AssignmentOperator::Subtraction, target(), ident("v"))),
        Err(LowerError::UnsupportedAssignment {
            target: AssignmentTargetKind::StaticMember,
            operator: AssignmentOperator::Subtraction
        })
    );
}

#[test]
fn assignment_to_a_computed_member() {
    let target = || AssignmentTarget::ComputedMemberExpression(computed(ident("a"), ident("i")));
    assert_eq!(
        expression_to_rust_text(&assign(AssignmentOperator::Assign, target(), num("7"))),
        ok("a.set_prop((i).clone(), JsValue::Number(7f64))")
    );
    assert_eq!(
        expression_to_rust_text(&assign(AssignmentOperator::Addition, target(), num("7"))),
        Err(LowerError::UnsupportedAssignment {
            target: AssignmentTargetKind::ComputedMember,
            operator: AssignmentOperator::Addition
        })
    );
}

#[test]
fn assignment_to_a_pattern_fails() {
    let exp = AssignmentExpression {
        operator: AssignmentOperator::Assign,
        left: AssignmentTarget::Other,
        right: Box::new(ident("v")),
    };
    assert_eq!(
        assignment_expression_to_rust_text(&exp),
        Err(LowerError::UnsupportedAssignment {
            target: AssignmentTargetKind::Other,
            operator: AssignmentOperator::Assign
        })
    );
}

#[test]
fn assignment_lowers_its_right_side_first() {
    let exp = AssignmentExpression {
        operator: AssignmentOperator::Assign,
        left: AssignmentTarget::Other,
        right: Box::new(Expression::Other(ExpressionKind::NewExpression)),
    };
    assert_eq!(
        assignment_expression_to_rust_text(&exp),
        Err(LowerError::UnsupportedExpression(ExpressionKind::NewExpression))
    );
}

#[test]
fn assignment_operator_spellings() {
    assert_eq!(assignment_operator_to_rust_text(AssignmentOperator::Assign), Ok("="));
    assert_eq!(assignment_operator_to_rust_text(AssignmentOperator::Addition), Ok("+="));
    assert_eq!(assignment_operator_to_rust_text(AssignmentOperator::Subtraction), Ok("-="));
    assert_eq!(assignment_operator_to_rust_text(AssignmentOperator::Multiplication), Ok("*="));
    assert!(assignment_operator_to_rust_text(AssignmentOperator::Division).is_err());
}

#[test]
fn member_reads() {
    assert_eq!(
        static_member_read_to_rust_text(&member(ident("o"), "size")),
        ok("o.get_prop(JsValue::from(\"size\"))")
    );
    assert_eq!(
        computed_member_read_to_rust_text(&computed(ident("a"), num("0"))),
        ok("a.get_prop((JsValue::Number(0f64)).clone())")
    );
    assert_eq!(
        expression_to_rust_text(&Expression::StaticMemberExpression(member(ident("o"), "size"))),
        ok("o.get_prop(JsValue::from(\"size\"))")
    );
    assert_eq!(
        expression_to_rust_text(&Expression::ComputedMemberExpression(computed(
            ident("a"),
            ident("i")
        ))),
        ok("a.get_prop((i).clone())")
    );
}

#[test]
fn member_writes() {
    assert_eq!(
        static_member_write_to_rust_text(&member(ident("o"), "size"), "v"),
        ok("o.set_prop(JsValue::from(\"size\"), v)")
    );
    assert_eq!(
        computed_member_write_to_rust_text(&computed(ident("a"), ident("i")), "v"),
        ok("a.set_prop((i).clone(), v)")
    );
}

#[test]
fn built_in_names_have_their_accessors() {
    let cases = [
        ("Math", "PI", "math().PI"),
        ("Math", "sqrt", "math().sqrt"),
        ("process", "argv", "process().argv"),
        ("console", "log", "console().log"),
    ];
    for (object, property, expected) in cases {
        assert_eq!(static_member_read_to_rust_text(&member(ident(object), property)), ok(expected));
    }
    assert_eq!(
        static_member_read_to_rust_text(&member(ident("Math"), "floor")),
        ok("Math.get_prop(JsValue::from(\"floor\"))")
    );
    assert_eq!(
        static_member_read_to_rust_text(&member(ident("console"), "PI")),
        ok("console.get_prop(JsValue::from(\"PI\"))")
    );
}

#[test]
fn callee_shapes() {
    assert!(!is_callee_an_object(&ident("f")));
    assert!(!is_callee_an_object(&Expression::ParenthesizedExpression(Box::new(ident("f")))));
    assert!(!is_callee_an_object(&Expression::Other(ExpressionKind::FunctionExpression)));
    assert!(!is_callee_an_object(&Expression::Other(ExpressionKind::ArrowFunctionExpression)));
    assert!(is_callee_an_object(&Expression::Other(ExpressionKind::ThisExpression)));
    assert!(is_callee_an_object(&Expression::Other(ExpressionKind::ChainExpression)));
    assert!(is_callee_an_object(&num("1")));
    assert!(is_callee_an_object(&call(ident("f"), vec![])));
    assert!(is_callee_an_object(&Expression::StaticMemberExpression(member(ident("o"), "m"))));
    assert!(is_callee_an_object(&Expression::ParenthesizedExpression(Box::new(
        Expression::ComputedMemberExpression(computed(ident("a"), ident("i")))
    ))));
}

#[test]
fn call_of_a_name_is_direct() {
    let text = expression_to_rust_text(&call(
        ident("f"),
        vec![Argument::Expression(ident("a")), Argument::Expression(num("2"))],
    ));
    assert_eq!(text, ok("f((a).clone(), (JsValue::Number(2f64)).clone())"));
    assert_eq!(expression_to_rust_text(&call(ident("f"), vec![])), ok("f()"));
}

#[test]
fn call_of_an_object_goes_through_the_runtime() {
    let log = Expression::StaticMemberExpression(member(ident("console"), "log"));
    let text = expression_to_rust_text(&call(log, vec![Argument::Expression(ident("x"))]));
    assert_eq!(text, ok("(console().log).call(&[(x).clone()])"));
    let method = Expression::StaticMemberExpression(member(ident("o"), "m"));
    assert_eq!(
        expression_to_rust_text(&call(method, vec![])),
        ok("(o.get_prop(JsValue::from(\"m\"))).call(&[])")
    );
}

#[test]
fn spread_argument_fails() {
    let text = expression_to_rust_text(&call(
        ident("f"),
        vec![Argument::Expression(ident("a")), Argument::SpreadElement],
    ));
    assert_eq!(text, Err(LowerError::SpreadElement));
}

#[test]
fn first_failing_argument_decides() {
    let text = expression_to_rust_text(&call(
        ident("f"),
        vec![
            Argument::Expression(Expression::Other(ExpressionKind::NewExpression)),
            Argument::SpreadElement,
        ],
    ));
    assert_eq!(text, Err(LowerError::UnsupportedExpression(ExpressionKind::NewExpression)));
}

#[test]
fn array_literal() {
    let text = expression_to_rust_text(&Expression::ArrayExpression(vec![
        ArrayElement::Expression(num("1")),
        ArrayElement::Expression(num("2")),
        ArrayElement::Expression(num("3")),
    ]));
    assert_eq!(
        text,
        ok("JsValue::new_array(vec![JsValue::Number(1f64), JsValue::Number(2f64), JsValue::Number(3f64)])")
    );
    assert_eq!(
        expression_to_rust_text(&Expression::ArrayExpression(vec![])),
        ok("JsValue::new_array(vec![])")
    );
    assert_eq!(
        expression_to_rust_text(&Expression::ArrayExpression(vec![
            ArrayElement::Expression(ident("a")),
            ArrayElement::Expression(Expression::ParenthesizedExpression(Box::new(ident("b")))),
        ])),
        ok("JsValue::new_array(vec![(a).clone(), ((b)).clone()])")
    );
}

#[test]
fn array_holes_and_spreads_fail() {
    assert_eq!(
        expression_to_rust_text(&Expression::ArrayExpression(vec![ArrayElement::Elision])),
        Err(LowerError::Elision)
    );
    assert_eq!(
        expression_to_rust_text(&Expression::ArrayExpression(vec![ArrayElement::SpreadElement])),
        Err(LowerError::SpreadElement)
    );
}

#[test]
fn object_literal() {
    let text = expression_to_rust_text(&Expression::ObjectExpression(vec![
        ObjectProperty::Property {
            key: PropertyKey::StaticIdentifier("x".to_string()),
            value: num("1"),
        },
        ObjectProperty::Property {
            key: PropertyKey::StaticIdentifier("y".to_string()),
            value: ident("v"),
        },
    ]));
    assert_eq!(
        text,
        ok("JsValue::from_entries([(\"x\".into(), JsValue::Number(1f64)),(\"y\".into(), (v).clone()),])")
    );
    assert_eq!(
        expression_to_rust_text(&Expression::ObjectExpression(vec![])),
        ok("JsValue::from_entries([])")
    );
}

#[test]
fn object_literal_keys_are_identifiers() {
    let computed_key = Expression::ObjectExpression(vec![ObjectProperty::Property {
        key: PropertyKey::Expression,
        value: Expression::Other(ExpressionKind::NewExpression),
    }]);
    assert_eq!(expression_to_rust_text(&computed_key), Err(LowerError::UnsupportedPropertyKey));
    let private_key = Expression::ObjectExpression(vec![ObjectProperty::Property {
        key: PropertyKey::PrivateIdentifier,
        value: num("1"),
    }]);
    assert_eq!(expression_to_rust_text(&private_key), Err(LowerError::UnsupportedPropertyKey));
    let spread = Expression::ObjectExpression(vec![ObjectProperty::SpreadProperty]);
    assert_eq!(expression_to_rust_text(&spread), Err(LowerError::SpreadElement));
}

#[test]
fn uncovered_expressions_fail() {
    for kind in [
        ExpressionKind::ThisExpression,
        ExpressionKind::ConditionalExpression,
        ExpressionKind::LogicalExpression,
        ExpressionKind::FunctionExpression,
        ExpressionKind::TemplateLiteral,
    ] {
        assert_eq!(
            expression_to_rust_text(&Expression::Other(kind)),
            Err(LowerError::UnsupportedExpression(kind))
        );
    }
}

#[test]
fn binding_patterns() {
    assert_eq!(
        binding_pattern_to_rust_text(&BindingPattern::BindingIdentifier("a".to_string())),
        ok("a")
    );
    for pattern in [
        BindingPattern::ObjectPattern,
        BindingPattern::ArrayPattern,
        BindingPattern::AssignmentPattern,
    ] {
        assert_eq!(
            binding_pattern_to_rust_text(&pattern),
            Err(LowerError::UnsupportedBindingPattern)
        );
    }
}
