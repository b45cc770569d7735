//! What holds of lowering as a whole: it gives the complete text or none.

use crate::ast::{AstKind, Program, Statement, StatementKind};
use crate::lowering::error::LowerError;
use crate::lowering::model::{
    gather, lemma_gather_all, lower_function, lower_function_body, lower_lines, lower_node,
    lower_program, lower_statement, lower_statements,
};
use vstd::prelude::*;

verus! {

/// Whether a statement is, or holds somewhere in a block, a loop body or a
/// function body, a statement of a form that lowering does not cover.
pub open spec fn holds_uncovered_statement(statement: Statement) -> bool
    decreases statement,
{
    match statement {
        Statement::Other(_) => true,
        Statement::BlockStatement(body) => exists|i: int|
            0 <= i < body@.len() && holds_uncovered_statement(#[trigger] body@[i]),
        Statement::ForStatement(for_statement) => holds_uncovered_statement(*for_statement.body),
        Statement::FunctionDeclaration(function) => match function.body {
            Some(body) => exists|i: int|
                0 <= i < body@.len() && holds_uncovered_statement(#[trigger] body@[i]),
            None => false,
        },
        _ => false,
    }
}

/// A statement of a form that is not covered has no text: lowering it
/// fails, and names the form.
pub proof fn law_uncovered_form_is_rejected(kind: StatementKind)
    ensures
        lower_statement(Statement::Other(kind)) == Err::<Seq<char>, LowerError>(
            LowerError::UnsupportedStatement(kind),
        ),
{
}

/// A statement that holds an uncovered statement anywhere has no text.
pub proof fn law_uncovered_statement_fails(statement: Statement)
    requires
        holds_uncovered_statement(statement),
    ensures
        lower_statement(statement) is Err,
    decreases statement,
{
    match statement {
        Statement::BlockStatement(body) => {
            let i = choose|i: int|
                0 <= i < body@.len() && holds_uncovered_statement(#[trigger] body@[i]);
            law_uncovered_statement_fails(body@[i]);
            assert(lower_statements(body@)[i] == lower_statement(body@[i]));
            if gather(lower_statements(body@)) is Ok {
                lemma_gather_all(lower_statements(body@), i);
            }
        },
        Statement::ForStatement(for_statement) => {
            law_uncovered_statement_fails(*for_statement.body);
        },
        Statement::FunctionDeclaration(function) => {
            let body = function.body->Some_0;
            let i = choose|i: int|
                0 <= i < body@.len() && holds_uncovered_statement(#[trigger] body@[i]);
            law_uncovered_statement_fails(body@[i]);
            assert(lower_statements(body@)[i] == lower_statement(body@[i]));
            if gather(lower_statements(body@)) is Ok {
                lemma_gather_all(lower_statements(body@), i);
            }
            assert(lower_function_body(function.body) is Err);
            assert(lower_function(function) is Err);
        },
        _ => {},
    }
}

/// A program is lowered as a whole or not at all: where one of its
/// top-level statements has no text, the program has none, whatever the
/// statements before it came to.
pub proof fn law_program_is_whole(program: Program, prelude: Seq<char>, i: int)
    requires
        0 <= i < program.body@.len(),
        lower_statement(program.body@[i]) is Err,
    ensures
        lower_program(program, prelude) is Err,
        lower_node(AstKind::Program(program), prelude) is Err,
{
    if gather(lower_lines(program.body@)) is Ok {
        lemma_gather_all(lower_lines(program.body@), i);
    }
}

/// The text of a program starts with the prelude, as it is.
pub proof fn law_program_starts_with_prelude(program: Program, prelude: Seq<char>)
    requires
        lower_program(program, prelude) is Ok,
    ensures
        prelude.is_prefix_of(lower_program(program, prelude)->Ok_0),
{
}

} // verus!
