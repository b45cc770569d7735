//! A survey of a tree: which kinds of node occur in it.

use crate::ast::NodeKind;
use vstd::prelude::*;

verus! {

/// The name of a kind of node. The TypeScript-only and the JSX kinds, which
/// stand for many kinds each, have none.
pub open spec fn kind_name(kind: NodeKind) -> Option<Seq<char>> {
    match kind {
        NodeKind::BooleanLiteral => Some("BooleanLiteral"@),
        NodeKind::NullLiteral => Some("NullLiteral"@),
        NodeKind::NumericLiteral => Some("NumericLiteral"@),
        NodeKind::BigIntLiteral => Some("BigIntLiteral"@),
        NodeKind::RegExpLiteral => Some("RegExpLiteral"@),
        NodeKind::StringLiteral => Some("StringLiteral"@),
        NodeKind::Program => Some("Program"@),
        NodeKind::IdentifierName => Some("IdentifierName"@),
        NodeKind::IdentifierReference => Some("IdentifierReference"@),
        NodeKind::BindingIdentifier => Some("BindingIdentifier"@),
        NodeKind::LabelIdentifier => Some("LabelIdentifier"@),
        NodeKind::ThisExpression => Some("ThisExpression"@),
        NodeKind::ArrayExpression => Some("ArrayExpression"@),
        NodeKind::ArrayExpressionElement => Some("ArrayExpressionElement"@),
        NodeKind::Elision => Some("Elision"@),
        NodeKind::ObjectExpression => Some("ObjectExpression"@),
        NodeKind::ObjectProperty => Some("ObjectProperty"@),
        NodeKind::PropertyKey => Some("PropertyKey"@),
        NodeKind::TemplateLiteral => Some("TemplateLiteral"@),
        NodeKind::TaggedTemplateExpression => Some("TaggedTemplateExpression"@),
        NodeKind::MemberExpression => Some("MemberExpression"@),
        NodeKind::CallExpression => Some("CallExpression"@),
        NodeKind::NewExpression => Some("NewExpression"@),
        NodeKind::MetaProperty => Some("MetaProperty"@),
        NodeKind::SpreadElement => Some("SpreadElement"@),
        NodeKind::Argument => Some("Argument"@),
        NodeKind::UpdateExpression => Some("UpdateExpression"@),
        NodeKind::UnaryExpression => Some("UnaryExpression"@),
        NodeKind::BinaryExpression => Some("BinaryExpression"@),
        NodeKind::PrivateInExpression => Some("PrivateInExpression"@),
        NodeKind::LogicalExpression => Some("LogicalExpression"@),
        NodeKind::ConditionalExpression => Some("ConditionalExpression"@),
        NodeKind::AssignmentExpression => Some("AssignmentExpression"@),
        NodeKind::AssignmentTarget => Some("AssignmentTarget"@),
        NodeKind::SimpleAssignmentTarget => Some("SimpleAssignmentTarget"@),
        NodeKind::AssignmentTargetPattern => Some("AssignmentTargetPattern"@),
        NodeKind::ArrayAssignmentTarget => Some("ArrayAssignmentTarget"@),
        NodeKind::ObjectAssignmentTarget => Some("ObjectAssignmentTarget"@),
        NodeKind::AssignmentTargetWithDefault => Some("AssignmentTargetWithDefault"@),
        NodeKind::SequenceExpression => Some("SequenceExpression"@),
        NodeKind::Super => Some("Super"@),
        NodeKind::AwaitExpression => Some("AwaitExpression"@),
        NodeKind::ChainExpression => Some("ChainExpression"@),
        NodeKind::ParenthesizedExpression => Some("ParenthesizedExpression"@),
        NodeKind::Directive => Some("Directive"@),
        NodeKind::Hashbang => Some("Hashbang"@),
        NodeKind::BlockStatement => Some("BlockStatement"@),
        NodeKind::VariableDeclaration => Some("VariableDeclaration"@),
        NodeKind::VariableDeclarator => Some("VariableDeclarator"@),
        NodeKind::EmptyStatement => Some("EmptyStatement"@),
        NodeKind::ExpressionStatement => Some("ExpressionStatement"@),
        NodeKind::IfStatement => Some("IfStatement"@),
        NodeKind::DoWhileStatement => Some("DoWhileStatement"@),
        NodeKind::WhileStatement => Some("WhileStatement"@),
        NodeKind::ForStatement => Some("ForStatement"@),
        NodeKind::ForStatementInit => Some("ForStatementInit"@),
        NodeKind::ForInStatement => Some("ForInStatement"@),
        NodeKind::ForOfStatement => Some("ForOfStatement"@),
        NodeKind::ContinueStatement => Some("ContinueStatement"@),
        NodeKind::BreakStatement => Some("BreakStatement"@),
        NodeKind::ReturnStatement => Some("ReturnStatement"@),
        NodeKind::WithStatement => Some("WithStatement"@),
        NodeKind::SwitchStatement => Some("SwitchStatement"@),
        NodeKind::SwitchCase => Some("SwitchCase"@),
        NodeKind::LabeledStatement => Some("LabeledStatement"@),
        NodeKind::ThrowStatement => Some("ThrowStatement"@),
        NodeKind::TryStatement => Some("TryStatement"@),
        NodeKind::CatchClause => Some("CatchClause"@),
        NodeKind::CatchParameter => Some("CatchParameter"@),
        NodeKind::DebuggerStatement => Some("DebuggerStatement"@),
        NodeKind::AssignmentPattern => Some("AssignmentPattern"@),
        NodeKind::ObjectPattern => Some("ObjectPattern"@),
        NodeKind::ArrayPattern => Some("ArrayPattern"@),
        NodeKind::BindingRestElement => Some("BindingRestElement"@),
        NodeKind::Function => Some("Function"@),
        NodeKind::FormalParameters => Some("FormalParameters"@),
        NodeKind::FormalParameter => Some("FormalParameter"@),
        NodeKind::FunctionBody => Some("FunctionBody"@),
        NodeKind::ArrowFunctionExpression => Some("ArrowFunctionExpression"@),
        NodeKind::YieldExpression => Some("YieldExpression"@),
        NodeKind::Class => Some("Class"@),
        NodeKind::ClassBody => Some("ClassBody"@),
        NodeKind::MethodDefinition => Some("MethodDefinition"@),
        NodeKind::PropertyDefinition => Some("PropertyDefinition"@),
        NodeKind::PrivateIdentifier => Some("PrivateIdentifier"@),
        NodeKind::StaticBlock => Some("StaticBlock"@),
        NodeKind::ModuleDeclaration => Some("ModuleDeclaration"@),
        NodeKind::ImportExpression => Some("ImportExpression"@),
        NodeKind::ImportDeclaration => Some("ImportDeclaration"@),
        NodeKind::ImportSpecifier => Some("ImportSpecifier"@),
        NodeKind::ImportDefaultSpecifier => Some("ImportDefaultSpecifier"@),
        NodeKind::ImportNamespaceSpecifier => Some("ImportNamespaceSpecifier"@),
        NodeKind::ExportNamedDeclaration => Some("ExportNamedDeclaration"@),
        NodeKind::ExportDefaultDeclaration => Some("ExportDefaultDeclaration"@),
        NodeKind::ExportAllDeclaration => Some("ExportAllDeclaration"@),
        NodeKind::ExportSpecifier => Some("ExportSpecifier"@),
        NodeKind::Decorator => Some("Decorator"@),
        NodeKind::TypeScript => None,
        NodeKind::Jsx => None,
    }
}

impl NodeKind {
    /// The name of the kind, where it has one.
    pub fn name(&self) -> (name: Option<&'static str>)
        ensures
            match kind_name(*self) {
                Some(text) => name matches Some(s) && s@ == text,
                None => name is None,
            },
    {
        match self {
            NodeKind::BooleanLiteral => Some("BooleanLiteral"),
            NodeKind::NullLiteral => Some("NullLiteral"),
            NodeKind::NumericLiteral => Some("NumericLiteral"),
            NodeKind::BigIntLiteral => Some("BigIntLiteral"),
            NodeKind::RegExpLiteral => Some("RegExpLiteral"),
            NodeKind::StringLiteral => Some("StringLiteral"),
            NodeKind::Program => Some("Program"),
            NodeKind::IdentifierName => Some("IdentifierName"),
            NodeKind::IdentifierReference => Some("IdentifierReference"),
            NodeKind::BindingIdentifier => Some("BindingIdentifier"),
            NodeKind::LabelIdentifier => Some("LabelIdentifier"),
            NodeKind::ThisExpression => Some("ThisExpression"),
            NodeKind::ArrayExpression => Some("ArrayExpression"),
            NodeKind::ArrayExpressionElement => Some("ArrayExpressionElement"),
            NodeKind::Elision => Some("Elision"),
            NodeKind::ObjectExpression => Some("ObjectExpression"),
            NodeKind::ObjectProperty => Some("ObjectProperty"),
            NodeKind::PropertyKey => Some("PropertyKey"),
            NodeKind::TemplateLiteral => Some("TemplateLiteral"),
            NodeKind::TaggedTemplateExpression => Some("TaggedTemplateExpression"),
            NodeKind::MemberExpression => Some("MemberExpression"),
            NodeKind::CallExpression => Some("CallExpression"),
            NodeKind::NewExpression => Some("NewExpression"),
            NodeKind::MetaProperty => Some("MetaProperty"),
            NodeKind::SpreadElement => Some("SpreadElement"),
            NodeKind::Argument => Some("Argument"),
            NodeKind::UpdateExpression => Some("UpdateExpression"),
            NodeKind::UnaryExpression => Some("UnaryExpression"),
            NodeKind::BinaryExpression => Some("BinaryExpression"),
            NodeKind::PrivateInExpression => Some("PrivateInExpression"),
            NodeKind::LogicalExpression => Some("LogicalExpression"),
            NodeKind::ConditionalExpression => Some("ConditionalExpression"),
            NodeKind::AssignmentExpression => Some("AssignmentExpression"),
            NodeKind::AssignmentTarget => Some("AssignmentTarget"),
            NodeKind::SimpleAssignmentTarget => Some("SimpleAssignmentTarget"),
            NodeKind::AssignmentTargetPattern => Some("AssignmentTargetPattern"),
            NodeKind::ArrayAssignmentTarget => Some("ArrayAssignmentTarget"),
            NodeKind::ObjectAssignmentTarget => Some("ObjectAssignmentTarget"),
            NodeKind::AssignmentTargetWithDefault => Some("AssignmentTargetWithDefault"),
            NodeKind::SequenceExpression => Some("SequenceExpression"),
            NodeKind::Super => Some("Super"),
            NodeKind::AwaitExpression => Some("AwaitExpression"),
            NodeKind::ChainExpression => Some("ChainExpression"),
            NodeKind::ParenthesizedExpression => Some("ParenthesizedExpression"),
            NodeKind::Directive => Some("Directive"),
            NodeKind::Hashbang => Some("Hashbang"),
            NodeKind::BlockStatement => Some("BlockStatement"),
            NodeKind::VariableDeclaration => Some("VariableDeclaration"),
            NodeKind::VariableDeclarator => Some("VariableDeclarator"),
            NodeKind::EmptyStatement => Some("EmptyStatement"),
            NodeKind::ExpressionStatement => Some("ExpressionStatement"),
            NodeKind::IfStatement => Some("IfStatement"),
            NodeKind::DoWhileStatement => Some("DoWhileStatement"),
            NodeKind::WhileStatement => Some("WhileStatement"),
            NodeKind::ForStatement => Some("ForStatement"),
            NodeKind::ForStatementInit => Some("ForStatementInit"),
            NodeKind::ForInStatement => Some("ForInStatement"),
            NodeKind::ForOfStatement => Some("ForOfStatement"),
            NodeKind::ContinueStatement => Some("ContinueStatement"),
            NodeKind::BreakStatement => Some("BreakStatement"),
            NodeKind::ReturnStatement => Some("ReturnStatement"),
            NodeKind::WithStatement => Some("WithStatement"),
            NodeKind::SwitchStatement => Some("SwitchStatement"),
            NodeKind::SwitchCase => Some("SwitchCase"),
            NodeKind::LabeledStatement => Some("LabeledStatement"),
            NodeKind::ThrowStatement => Some("ThrowStatement"),
            NodeKind::TryStatement => Some("TryStatement"),
            NodeKind::CatchClause => Some("CatchClause"),
            NodeKind::CatchParameter => Some("CatchParameter"),
            NodeKind::DebuggerStatement => Some("DebuggerStatement"),
            NodeKind::AssignmentPattern => Some("AssignmentPattern"),
            NodeKind::ObjectPattern => Some("ObjectPattern"),
            NodeKind::ArrayPattern => Some("ArrayPattern"),
            NodeKind::BindingRestElement => Some("BindingRestElement"),
            NodeKind::Function => Some("Function"),
            NodeKind::FormalParameters => Some("FormalParameters"),
            NodeKind::FormalParameter => Some("FormalParameter"),
            NodeKind::FunctionBody => Some("FunctionBody"),
            NodeKind::ArrowFunctionExpression => Some("ArrowFunctionExpression"),
            NodeKind::YieldExpression => Some("YieldExpression"),
            NodeKind::Class => Some("Class"),
            NodeKind::ClassBody => Some("ClassBody"),
            NodeKind::MethodDefinition => Some("MethodDefinition"),
            NodeKind::PropertyDefinition => Some("PropertyDefinition"),
            NodeKind::PrivateIdentifier => Some("PrivateIdentifier"),
            NodeKind::StaticBlock => Some("StaticBlock"),
            NodeKind::ModuleDeclaration => Some("ModuleDeclaration"),
            NodeKind::ImportExpression => Some("ImportExpression"),
            NodeKind::ImportDeclaration => Some("ImportDeclaration"),
            NodeKind::ImportSpecifier => Some("ImportSpecifier"),
            NodeKind::ImportDefaultSpecifier => Some("ImportDefaultSpecifier"),
            NodeKind::ImportNamespaceSpecifier => Some("ImportNamespaceSpecifier"),
            NodeKind::ExportNamedDeclaration => Some("ExportNamedDeclaration"),
            NodeKind::ExportDefaultDeclaration => Some("ExportDefaultDeclaration"),
            NodeKind::ExportAllDeclaration => Some("ExportAllDeclaration"),
            NodeKind::ExportSpecifier => Some("ExportSpecifier"),
            NodeKind::Decorator => Some("Decorator"),
            NodeKind::TypeScript => None,
            NodeKind::Jsx => None,
        }
    }
}

/// The kinds that occur in `kinds`, each once, in the order in which they
/// first occur.
pub open spec fn distinct(kinds: Seq<NodeKind>) -> Seq<NodeKind>
    decreases kinds.len(),
{
    if kinds.len() == 0 {
        Seq::empty()
    } else {
        let before = distinct(kinds.drop_last());
        if before.contains(kinds.last()) {
            before
        } else {
            before.push(kinds.last())
        }
    }
}

/// `distinct` keeps every kind that occurs, adds none, and repeats none.
pub proof fn law_distinct(kinds: Seq<NodeKind>)
    ensures
        distinct(kinds).no_duplicates(),
        forall|kind: NodeKind| distinct(kinds).contains(kind) <==> kinds.contains(kind),
    decreases kinds.len(),
{
    if kinds.len() > 0 {
        let init = kinds.drop_last();
        let before = distinct(init);
        law_distinct(init);
        assert forall|kind: NodeKind| distinct(kinds).contains(kind) <==> kinds.contains(
            kind,
        ) by {
            if kinds.contains(kind) {
                let i = choose|i: int| 0 <= i < kinds.len() && kinds[i] == kind;
                if i < kinds.len() - 1 {
                    assert(init[i] == kind);
                    assert(init.contains(kind));
                    assert(before.contains(kind));
                    let j = choose|j: int| 0 <= j < before.len() && before[j] == kind;
                    assert(distinct(kinds)[j] == kind);
                } else if !before.contains(kind) {
                    assert(distinct(kinds)[before.len() as int] == kind);
                } else {
                    let j = choose|j: int| 0 <= j < before.len() && before[j] == kind;
                    assert(distinct(kinds)[j] == kind);
                }
            }
            if distinct(kinds).contains(kind) {
                let j = choose|j: int| 0 <= j < distinct(kinds).len() && distinct(kinds)[j] == kind;
                if j < before.len() {
                    assert(before[j] == kind);
                    assert(before.contains(kind));
                    assert(init.contains(kind));
                    let i = choose|i: int| 0 <= i < init.len() && init[i] == kind;
                    assert(kinds[i] == kind);
                } else {
                    assert(kinds[kinds.len() - 1] == kind);
                }
            }
        }
    }
}

/// Whether `kind` is among `found`.
fn is_among(found: &Vec<NodeKind>, kind: NodeKind) -> (yes: bool)
    ensures
        yes == found@.contains(kind),
{
    let mut i: usize = 0;
    while i < found.len()
        invariant
            i <= found.len(),
            forall|j: int| 0 <= j < i ==> found@[j] != kind,
        decreases found.len() - i,
    {
        if found[i] == kind {
            return true;
        }
        i += 1;
    }
    false
}

/// Goes through `kinds` and gives the kinds that occur, each once, in the
/// order in which they first occur.
pub fn distinct_kinds(kinds: &Vec<NodeKind>) -> (found: Vec<NodeKind>)
    ensures
        found@ == distinct(kinds@),
{
    let mut found: Vec<NodeKind> = Vec::new();
    let mut i: usize = 0;
    while i < kinds.len()
        invariant
            i <= kinds.len(),
            found@ == distinct(kinds@.take(i as int)),
        decreases kinds.len() - i,
    {
        proof {
            assert(kinds@.take(i + 1).drop_last() =~= kinds@.take(i as int));
        }
        if !is_among(&found, kinds[i]) {
            found.push(kinds[i]);
        }
        i += 1;
    }
    proof {
        assert(kinds@.take(i as int) =~= kinds@);
    }
    found
}

} // verus!
