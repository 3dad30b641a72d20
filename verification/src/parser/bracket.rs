//! Accesses to elements of lists: `expression[index]`.

use vstd::prelude::*;
use crate::errors::Error;
use crate::lexer::separator::Separator;
use crate::lexer::token::Token;
use crate::lexer::tokenstream::TokenStream;
use crate::parser::grammar::bracket_spec;
use crate::parser::{parsable, kept, parsed_expr, expect_token};
use crate::parser::expression::parse_expression;
use crate::sloth::expression::Expression;
use crate::sloth::program::SlothProgram;

verus! {

/// Parses the access `[index]` at the cursor, to an element of the value
/// of `first_expr`.
pub fn parse_bracket_access(stream: &mut TokenStream, program: &mut SlothProgram, warning: bool, first_expr: Box<Expression>) -> (r: Result<Expression, Error>)
    requires
        parsable(*old(stream)),
    ensures
        kept(*old(stream), *final(stream)),
        *final(program) == *old(program),
        parsed_expr(bracket_spec(old(stream).items(), old(stream).cursor(), first_expr@), r, *old(stream), *final(stream)),
    decreases old(stream).items().len() - old(stream).cursor(), 1int,
{
    // opening [
    let (_, first_pos) = expect_token(stream, Token::Separator(Separator::OpenSquareBracket))?;
    // the index
    let access = parse_expression(stream, program, warning, None)?;
    // closing ]
    let (_, end_pos) = expect_token(stream, Token::Separator(Separator::CloseSquareBracket))?;

    Ok(Expression::BracketAccess(first_expr, Box::new(access), first_pos.until(end_pos)))
}

} // verus!
