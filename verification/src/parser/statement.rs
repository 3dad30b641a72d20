//! Statements: assignments, expressions evaluated for their effect, `if`
//! and `while`.

use vstd::prelude::*;
use crate::errors::Error;
use crate::lexer::keyword::Keyword;
use crate::lexer::token::Token;
use crate::lexer::tokenstream::TokenStream;
use crate::errors::{ErrorView, WarningView};
use crate::lexer::separator::Separator;
use crate::parser::grammar::{statement_spec, block_spec, Failure};
use crate::parser::{parsable, kept, warned, parsed_stmt, wrong_token, current_equal, check_semicolon};
use crate::parser::expression::parse_expression;
use crate::parser::flow_control::{parse_if, parse_while};
use crate::sloth::program::SlothProgram;
use crate::sloth::statement::{Statement, StatementView, statements_view, lemma_statements_view_push};

verus! {

/// Parses the statement at the cursor, then the semicolon after it: an
/// assignment `target = source` or an expression when it starts with a
/// name, else an `if` or a `while`.
pub fn parse_statement(stream: &mut TokenStream, program: &mut SlothProgram, warning: bool) -> (r: Result<Statement, Error>)
    requires
        parsable(*old(stream)),
    ensures
        kept(*old(stream), *final(stream)),
        parsed_stmt(
            statement_spec(old(stream).items(), old(stream).cursor(), warning, old(program)@.warnings),
            r,
            *old(stream),
            *final(stream),
            old(program)@,
            final(program)@,
        ),
    decreases old(stream).items().len() - old(stream).cursor(), 2int,
{
    let statement = match stream.current() {
        // an assignment or an expression
        Some((Token::Identifier(_), _)) => {
            let target = parse_expression(stream, program, warning, None)?;

            // a '=' makes it an assignment
            if current_equal(stream, Token::Keyword(Keyword::Equal))? {
                stream.next();
                let source = parse_expression(stream, program, warning, None)?;
                let pos = target.get_pos().until(source.get_pos());
                Statement::Assignment(Box::new(target), Box::new(source), pos)
            } else {
                let pos = target.get_pos();
                Statement::ExpressionCall(Box::new(target), pos)
            }
        },

        Some((Token::Keyword(Keyword::If), _)) => parse_if(stream, program, warning)?,
        Some((Token::Keyword(Keyword::While), _)) => parse_while(stream, program, warning)?,

        o => return Err(wrong_token(o, "statement")),
    };

    check_semicolon(stream, program, warning, &statement.get_pos())?;
    Ok(statement)
}

/// Parses statements until a closing bracket, which is not read.
pub(crate) fn parse_block(stream: &mut TokenStream, program: &mut SlothProgram, warning: bool) -> (r: Result<Vec<Statement>, Error>)
    requires
        parsable(*old(stream)),
    ensures
        kept(*old(stream), *final(stream)),
        warned(old(program)@, final(program)@, final(program)@.warnings),
        match r {
            Ok(v) => block_spec(old(stream).items(), old(stream).cursor(), warning, seq![], old(program)@.warnings)
                == Ok::<(Seq<StatementView>, int, Seq<WarningView>), Failure>((
                    statements_view(v@),
                    final(stream).cursor(),
                    final(program)@.warnings,
                ))
                && old(stream).cursor() <= final(stream).cursor() < final(stream).items().len(),
            Err(e) => block_spec(old(stream).items(), old(stream).cursor(), warning, seq![], old(program)@.warnings)
                == Err::<(Seq<StatementView>, int, Seq<WarningView>), Failure>((e@, final(program)@.warnings)),
        },
    decreases old(stream).items().len() - old(stream).cursor(), 3int,
{
    let ghost toks = stream.items();
    let mut statements: Vec<Statement> = Vec::new();
    proof {
        assert(statements_view(statements@) =~= seq![]);
    }
    loop
        invariant
            kept(*old(stream), *stream),
            warned(old(program)@, program@, program@.warnings),
            toks == old(stream).items(),
            old(stream).cursor() <= stream.cursor(),
            block_spec(toks, old(stream).cursor(), warning, seq![], old(program)@.warnings)
                == block_spec(toks, stream.cursor(), warning, statements_view(statements@), program@.warnings),
        ensures
            kept(*old(stream), *stream),
            warned(old(program)@, program@, program@.warnings),
            old(stream).cursor() <= stream.cursor() < toks.len(),
            block_spec(toks, old(stream).cursor(), warning, seq![], old(program)@.warnings)
                == Ok::<(Seq<StatementView>, int, Seq<WarningView>), Failure>((
                    statements_view(statements@),
                    stream.cursor(),
                    program@.warnings,
                )),
        decreases toks.len() - stream.cursor(),
    {
        let done = current_equal(stream, Token::Separator(Separator::CloseBracket))?;
        if done {
            break;
        }
        let st = parse_statement(stream, program, warning)?;
        proof {
            lemma_statements_view_push(statements@, st);
        }
        statements.push(st);
    }
    Ok(statements)
}

} // verus!
