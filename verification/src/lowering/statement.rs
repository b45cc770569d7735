//! Lowering of statements, and the assembly of a whole program.

use crate::ast::{
    AstKind, BindingPattern, Expression, ForStatement, ForStatementInit, Function, Program,
    Statement, VariableDeclaration, VariableDeclarationKind, VariableDeclarator,
};
use crate::lowering::error::LowerError;
use crate::lowering::expression::{
    are_lowered, binding_pattern_to_rust_text, expression_to_rust_text, is_lowered, taken_text,
};
use crate::lowering::model::{
    gather, lemma_gather_fails, lemma_gather_next, lower_declarator, lower_declarators,
    lower_expression_statement, lower_for, lower_function, lower_lines, lower_node,
    lower_parameters, lower_program, lower_statement, lower_statements,
    lower_variable_declaration,
};
use crate::text::{concat_strings, join_strings, texts};
use vstd::prelude::*;
use vstd::string::*;

verus! {

/// Lowers an expression that stands as a statement.
fn expression_statement_to_rust_text(expression: &Expression) -> (result: Result<
    String,
    LowerError,
>)
    ensures
        is_lowered(result, lower_expression_statement(*expression)),
{
    let text = expression_to_rust_text(expression)?;
    let mut out = taken_text(expression, text);
    out.append(";");
    Ok(out)
}

/// Lowers one declarator to a binding on a line of its own.
fn declarator_to_rust_text(declarator: &VariableDeclarator) -> (result: Result<String, LowerError>)
    ensures
        is_lowered(result, lower_declarator(*declarator)),
{
    let kind = match declarator.kind {
        VariableDeclarationKind::Const => "let",
        VariableDeclarationKind::Let => "let mut",
        _ => {
            return Err(LowerError::UnsupportedDeclarationKind(declarator.kind));
        },
    };
    let var_name = binding_pattern_to_rust_text(&declarator.id)?;
    let init = match &declarator.init {
        Some(init) => {
            let text = expression_to_rust_text(init)?;
            let mut out = String::from_str("= ");
            out.append(taken_text(init, text).as_str());
            out
        },
        None => String::from_str("= JsValue::Undefined"),
    };
    let mut out = String::from_str(kind);
    out.append(" ");
    out.append(var_name.as_str());
    out.append(" ");
    out.append(init.as_str());
    out.append(";\n");
    Ok(out)
}

/// Lowers a variable declaration: one binding per declarator.
pub fn variable_declaration_to_rust_text(declaration: &VariableDeclaration) -> (result: Result<
    String,
    LowerError,
>)
    ensures
        is_lowered(result, lower_variable_declaration(*declaration)),
{
    let ghost all = lower_declarators(declaration.declarations@);
    let mut parts: Vec<String> = Vec::new();
    let mut i: usize = 0;
    assert(texts(parts@) =~= Seq::empty());
    while i < declaration.declarations.len()
        invariant
            i <= declaration.declarations.len(),
            all == lower_declarators(declaration.declarations@),
            parts.len() == i,
            gather(all.take(i as int)) == Ok::<Seq<Seq<char>>, LowerError>(texts(parts@)),
        decreases declaration.declarations.len() - i,
    {
        proof {
            lemma_gather_next(all, i as int);
        }
        let ghost before = texts(parts@);
        match declarator_to_rust_text(&declaration.declarations[i]) {
            Err(e) => {
                proof {
                    lemma_gather_fails(all, i + 1);
                }
                return Err(e);
            },
            Ok(text) => {
                parts.push(text);
            },
        }
        assert(texts(parts@) =~= before.push(parts@[i as int]@));
        i += 1;
    }
    proof {
        assert(all.take(i as int) =~= all);
    }
    Ok(concat_strings(&parts))
}

/// Lowers the parameters of a function, each to its own text.
fn parameters_to_rust_text(params: &Vec<BindingPattern>) -> (result: Result<
    Vec<String>,
    LowerError,
>)
    ensures
        are_lowered(result, gather(lower_parameters(params@))),
{
    let ghost all = lower_parameters(params@);
    let mut parts: Vec<String> = Vec::new();
    let mut i: usize = 0;
    assert(texts(parts@) =~= Seq::empty());
    while i < params.len()
        invariant
            i <= params.len(),
            all == lower_parameters(params@),
            parts.len() == i,
            gather(all.take(i as int)) == Ok::<Seq<Seq<char>>, LowerError>(texts(parts@)),
        decreases params.len() - i,
    {
        proof {
            lemma_gather_next(all, i as int);
        }
        let ghost before = texts(parts@);
        match binding_pattern_to_rust_text(&params[i]) {
            Err(e) => {
                proof {
                    lemma_gather_fails(all, i + 1);
                }
                return Err(e);
            },
            Ok(name) => {
                let mut text = name;
                text.append(": JsValue");
                parts.push(text);
            },
        }
        assert(texts(parts@) =~= before.push(parts@[i as int]@));
        i += 1;
    }
    proof {
        assert(all.take(i as int) =~= all);
    }
    Ok(parts)
}

/// Lowers a sequence of statements, each to its own text.
fn statements_to_rust_text(statements: &Vec<Statement>) -> (result: Result<
    Vec<String>,
    LowerError,
>)
    ensures
        are_lowered(result, gather(lower_statements(statements@))),
    decreases statements@,
{
    let ghost all = lower_statements(statements@);
    let mut parts: Vec<String> = Vec::new();
    let mut i: usize = 0;
    assert(texts(parts@) =~= Seq::empty());
    while i < statements.len()
        invariant
            i <= statements.len(),
            all == lower_statements(statements@),
            parts.len() == i,
            gather(all.take(i as int)) == Ok::<Seq<Seq<char>>, LowerError>(texts(parts@)),
        decreases statements.len() - i,
    {
        proof {
            lemma_gather_next(all, i as int);
        }
        let ghost before = texts(parts@);
        match statement_to_rust_text(&statements[i]) {
            Err(e) => {
                proof {
                    lemma_gather_fails(all, i + 1);
                }
                return Err(e);
            },
            Ok(text) => {
                parts.push(text);
            },
        }
        assert(texts(parts@) =~= before.push(parts@[i as int]@));
        i += 1;
    }
    proof {
        assert(all.take(i as int) =~= all);
    }
    Ok(parts)
}

/// Lowers a function declaration to a local closure binding.
fn function_to_rust_text(func: &Function) -> (result: Result<String, LowerError>)
    ensures
        is_lowered(result, lower_function(*func)),
    decreases func,
{
    let name = match &func.id {
        Some(name) => name,
        None => {
            return Err(LowerError::UnnamedFunction);
        },
    };
    let params = parameters_to_rust_text(&func.params)?;
    let body = match &func.body {
        Some(statements) => {
            let lines = statements_to_rust_text(statements)?;
            join_strings(&lines, "\n")
        },
        None => String::new(),
    };
    let mut out = String::from_str("let ");
    out.append(name.as_str());
    out.append(" = |");
    out.append(join_strings(&params, ", ").as_str());
    out.append("| -> JsValue { ");
    out.append(body.as_str());
    out.append(" return JsValue::Undefined; }; ");
    Ok(out)
}

/// Lowers a `for` statement to its first clause and an unconditional loop.
fn for_statement_to_rust_text(statement: &ForStatement) -> (result: Result<String, LowerError>)
    ensures
        is_lowered(result, lower_for(*statement)),
    decreases statement,
{
    let init = match &statement.init {
        None => String::new(),
        Some(ForStatementInit::VariableDeclaration(var_decl)) => {
            variable_declaration_to_rust_text(var_decl)?
        },
        Some(ForStatementInit::Expression(exp)) => expression_statement_to_rust_text(exp)?,
    };
    let test = match &statement.test {
        None => String::new(),
        Some(test) => {
            let text = expression_to_rust_text(test)?;
            let mut out = String::from_str("if (");
            out.append(text.as_str());
            out.append(").falsy() { break; }");
            out
        },
    };
    let update = match &statement.update {
        None => String::new(),
        Some(exp) => expression_statement_to_rust_text(exp)?,
    };
    let body = statement_to_rust_text(&statement.body)?;
    let mut out = init;
    out.append("\nloop {\n");
    out.append(test.as_str());
    out.append("\n");
    out.append(body.as_str());
    out.append("\n");
    out.append(update.as_str());
    out.append("}");
    Ok(out)
}

/// Lowers a statement.
pub fn statement_to_rust_text(statement: &Statement) -> (result: Result<String, LowerError>)
    ensures
        is_lowered(result, lower_statement(*statement)),
    decreases statement,
{
    match statement {
        Statement::FunctionDeclaration(func) => function_to_rust_text(func),
        Statement::ReturnStatement(argument) => {
            let expression = match argument {
                Some(e) => {
                    let text = expression_to_rust_text(e)?;
                    taken_text(e, text)
                },
                None => String::from_str("JsValue::Undefined"),
            };
            let mut out = String::from_str("return ");
            out.append(expression.as_str());
            out.append(";");
            Ok(out)
        },
        Statement::VariableDeclaration(declaration) => variable_declaration_to_rust_text(
            declaration,
        ),
        Statement::ForStatement(for_statement) => for_statement_to_rust_text(for_statement),
        Statement::BlockStatement(body) => {
            let lines = statements_to_rust_text(body)?;
            let mut out = String::from_str("{");
            out.append(join_strings(&lines, "\n").as_str());
            out.append("}");
            Ok(out)
        },
        Statement::ExpressionStatement(expression) => expression_statement_to_rust_text(
            expression,
        ),
        Statement::Other(kind) => Err(LowerError::UnsupportedStatement(*kind)),
    }
}

/// Assembles a program: `prelude` as it is, then one entry point with the
/// lowered top-level statements.
fn program_to_rust_text(program: &Program, prelude: &str) -> (result: Result<String, LowerError>)
    ensures
        is_lowered(result, lower_program(*program, prelude@)),
{
    let ghost all = lower_lines(program.body@);
    let mut parts: Vec<String> = Vec::new();
    let mut i: usize = 0;
    assert(texts(parts@) =~= Seq::empty());
    while i < program.body.len()
        invariant
            i <= program.body.len(),
            all == lower_lines(program.body@),
            parts.len() == i,
            gather(all.take(i as int)) == Ok::<Seq<Seq<char>>, LowerError>(texts(parts@)),
        decreases program.body.len() - i,
    {
        proof {
            lemma_gather_next(all, i as int);
        }
        let ghost before = texts(parts@);
        match statement_to_rust_text(&program.body[i]) {
            Err(e) => {
                proof {
                    lemma_gather_fails(all, i + 1);
                }
                return Err(e);
            },
            Ok(text) => {
                let mut line = text;
                line.append("\n");
                parts.push(line);
            },
        }
        assert(texts(parts@) =~= before.push(parts@[i as int]@));
        i += 1;
    }
    proof {
        assert(all.take(i as int) =~= all);
    }
    let mut result = String::from_str(prelude);
    result.append("fn main() {\n");
    result.append(concat_strings(&parts).as_str());
    result.append("}");
    Ok(result)
}

/// Assembles the program below `node_kind`, which must be the root:
/// `prelude` as it is, then one entry point with the lowered top-level
/// statements.
pub fn node_to_rust_text(node_kind: &AstKind, prelude: &str) -> (result: Result<
    String,
    LowerError,
>)
    ensures
        is_lowered(result, lower_node(*node_kind, prelude@)),
{
    match node_kind {
        AstKind::Program(program) => program_to_rust_text(program, prelude),
        AstKind::Other(kind) => Err(LowerError::UnsupportedNode(*kind)),
    }
}

} // verus!
