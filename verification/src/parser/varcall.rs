//! Variables, and fields of values.

use vstd::prelude::*;
use crate::errors::Error;
use crate::lexer::token::Token;
use crate::lexer::tokenstream::TokenStream;
use crate::parser::grammar::variable_spec;
use crate::parser::{parsable, kept, parsed_expr, wrong_token};
use crate::sloth::expression::{Expression, first_view};
use crate::sloth::program::SlothProgram;

verus! {

/// Parses the variable at the cursor, a field of the value of
/// `first_expr` when it is given.
pub fn parse_variablecall(stream: &mut TokenStream, program: &mut SlothProgram, first_expr: Option<Box<Expression>>, warning: bool) -> (r: Result<Expression, Error>)
    requires
        parsable(*old(stream)),
    ensures
        kept(*old(stream), *final(stream)),
        *final(program) == *old(program),
        parsed_expr(variable_spec(old(stream).items(), old(stream).cursor(), first_view(first_expr)), r, *old(stream), *final(stream)),
{
    let expr = match stream.current() {
        Some((Token::Identifier(n), p)) => Expression::VariableAccess(first_expr, n, p),
        o => return Err(wrong_token(o, "variable name")),
    };
    stream.next();
    Ok(expr)
}

} // verus!
