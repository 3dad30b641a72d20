//! Flow control: `if condition { statements }` and
//! `while condition { statements }`.

use vstd::prelude::*;
use crate::errors::Error;
use crate::lexer::keyword::Keyword;
use crate::lexer::separator::Separator;
use crate::lexer::token::Token;
use crate::lexer::tokenstream::TokenStream;
use crate::parser::grammar::flow_spec;
use crate::parser::{parsable, kept, parsed_stmt, expect_token};
use crate::parser::expression::parse_expression;
use crate::parser::statement::parse_block;
use crate::sloth::program::SlothProgram;
use crate::sloth::statement::{Statement, lemma_statement_view};

verus! {

/// Parses `keyword condition { statements }` at the cursor, where the
/// keyword is `if` or `while`.
fn parse_flow(stream: &mut TokenStream, program: &mut SlothProgram, warning: bool, keyword: Keyword) -> (r: Result<Statement, Error>)
    requires
        parsable(*old(stream)),
        keyword == Keyword::If || keyword == Keyword::While,
    ensures
        kept(*old(stream), *final(stream)),
        parsed_stmt(
            flow_spec(old(stream).items(), old(stream).cursor(), keyword, warning, old(program)@.warnings),
            r,
            *old(stream),
            *final(stream),
            old(program)@,
            final(program)@,
        ),
    decreases old(stream).items().len() - old(stream).cursor(), 0int,
{
    let (_, first_pos) = expect_token(stream, Token::Keyword(keyword))?;
    let condition = parse_expression(stream, program, warning, None)?;
    expect_token(stream, Token::Separator(Separator::OpenBracket))?;

    // the statements, until a closing bracket
    let statements = parse_block(stream, program, warning)?;

    let (_, last_pos) = expect_token(stream, Token::Separator(Separator::CloseBracket))?;
    let pos = first_pos.until(last_pos);
    let r = if keyword == Keyword::While {
        Statement::While(Box::new(condition), statements, pos)
    } else {
        Statement::If(Box::new(condition), statements, pos)
    };
    proof {
        lemma_statement_view(r);
    }
    Ok(r)
}

/// Parses `if condition { statements }` at the cursor.
pub fn parse_if(stream: &mut TokenStream, program: &mut SlothProgram, warning: bool) -> (r: Result<Statement, Error>)
    requires
        parsable(*old(stream)),
    ensures
        kept(*old(stream), *final(stream)),
        parsed_stmt(
            flow_spec(old(stream).items(), old(stream).cursor(), Keyword::If, warning, old(program)@.warnings),
            r,
            *old(stream),
            *final(stream),
            old(program)@,
            final(program)@,
        ),
    decreases old(stream).items().len() - old(stream).cursor(), 1int,
{
    parse_flow(stream, program, warning, Keyword::If)
}

/// Parses `while condition { statements }` at the cursor.
pub fn parse_while(stream: &mut TokenStream, program: &mut SlothProgram, warning: bool) -> (r: Result<Statement, Error>)
    requires
        parsable(*old(stream)),
    ensures
        kept(*old(stream), *final(stream)),
        parsed_stmt(
            flow_spec(old(stream).items(), old(stream).cursor(), Keyword::While, warning, old(program)@.warnings),
            r,
            *old(stream),
            *final(stream),
            old(program)@,
            final(program)@,
        ),
    decreases old(stream).items().len() - old(stream).cursor(), 1int,
{
    parse_flow(stream, program, warning, Keyword::While)
}

} // verus!
