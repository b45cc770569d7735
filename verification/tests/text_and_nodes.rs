use js_to_rust::ast::NodeKind;
use js_to_rust::nodes::distinct_kinds;
use js_to_rust::text::{concat_strings, escape_string, join_strings, same_text};

fn strings(parts: &[&str]) -> Vec<String> {
    parts.iter().map(|s| s.to_string()).collect()
}

#[test]
fn join_puts_the_separator_between_neighbours() {
    assert_eq!(join_strings(&strings(&[]), ", "), "");
    assert_eq!(join_strings(&strings(&["a"]), ", "), "a");
    assert_eq!(join_strings(&strings(&["a", "b", "c"]), ", "), "a, b, c");
    assert_eq!(join_strings(&strings(&["", ""]), "-"), "-");
    assert_eq!(join_strings(&strings(&["a", "b"]), ""), "ab");
}

#[test]
fn concat_puts_nothing_in_between() {
    assert_eq!(concat_strings(&strings(&[])), "");
    assert_eq!(concat_strings(&strings(&["a", "", "bc"])), "abc");
}

#[test]
fn same_text_compares_characters() {
    assert!(same_text("Math", "Math"));
    assert!(!same_text("Math", "math"));
    assert!(!same_text("Math", "Mat"));
    assert!(same_text("", ""));
}

#[test]
fn escape_quotes_what_a_literal_cannot_hold() {
    assert_eq!(escape_string("plain"), "plain");
    assert_eq!(escape_string(""), "");
    assert_eq!(escape_string("\""), "\\\"");
    assert_eq!(escape_string("\\"), "\\\\");
    assert_eq!(escape_string("\n"), "\\n");
    assert_eq!(escape_string("\r"), "\\r");
    assert_eq!(escape_string("\t"), "\\t");
    assert_eq!(escape_string("say \"hi\"\n"), "say \\\"hi\\\"\\n");
    assert_eq!(escape_string("h\u{e9}llo \u{1f600}"), "h\u{e9}llo \u{1f600}");
}

#[test]
fn kinds_have_their_names() {
    assert_eq!(NodeKind::Program.name(), Some("Program"));
    assert_eq!(NodeKind::BooleanLiteral.name(), Some("BooleanLiteral"));
    assert_eq!(NodeKind::WhileStatement.name(), Some("WhileStatement"));
    assert_eq!(NodeKind::Decorator.name(), Some("Decorator"));
    assert_eq!(NodeKind::ExportSpecifier.name(), Some("ExportSpecifier"));
    assert_eq!(NodeKind::TypeScript.name(), None);
    assert_eq!(NodeKind::Jsx.name(), None);
}

#[test]
fn survey_keeps_each_kind_once_in_order_of_first_occurrence() {
    let kinds = vec![
        NodeKind::Program,
        NodeKind::VariableDeclaration,
        NodeKind::VariableDeclarator,
        NodeKind::NumericLiteral,
        NodeKind::VariableDeclaration,
        NodeKind::VariableDeclarator,
        NodeKind::NumericLiteral,
        NodeKind::Program,
        NodeKind::CallExpression,
    ];
    assert_eq!(
        distinct_kinds(&kinds),
        vec![
            NodeKind::Program,
            NodeKind::VariableDeclaration,
            NodeKind::VariableDeclarator,
            NodeKind::NumericLiteral,
            NodeKind::CallExpression,
        ]
    );
    assert_eq!(distinct_kinds(&vec![]), vec![]);
    assert_eq!(distinct_kinds(&vec![NodeKind::Jsx, NodeKind::Jsx]), vec![NodeKind::Jsx]);
}
