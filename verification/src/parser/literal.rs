//! Literals: strings, numbers and booleans, kept as written.

use vstd::prelude::*;
use crate::errors::Error;
use crate::lexer::token::Token;
use crate::lexer::tokenstream::TokenStream;
use crate::parser::grammar::literal_spec;
use crate::parser::{parsable, kept, parsed_expr, wrong_token};
use crate::sloth::expression::Expression;
use crate::sloth::program::SlothProgram;

verus! {

/// Parses the literal at the cursor.
pub fn parse_literal(stream: &mut TokenStream, program: &mut SlothProgram, warning: bool) -> (r: Result<Expression, Error>)
    requires
        parsable(*old(stream)),
    ensures
        kept(*old(stream), *final(stream)),
        *final(program) == *old(program),
        parsed_expr(literal_spec(old(stream).items(), old(stream).cursor()), r, *old(stream), *final(stream)),
{
    let (literal_str, pos) = match stream.current() {
        Some((Token::Literal(s), p)) => (s, p),
        o => return Err(wrong_token(o, "literal")),
    };

    stream.next();
    Ok(Expression::Literal(literal_str, pos))
}

} // verus!
