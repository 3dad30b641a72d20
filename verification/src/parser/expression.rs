//! Expressions: the first token tells which construct starts.

use vstd::prelude::*;
use crate::errors::Error;
use crate::lexer::keyword::Keyword;
use crate::lexer::separator::Separator;
use crate::lexer::token::Token;
use crate::lexer::tokenstream::TokenStream;
use crate::parser::grammar::expression_spec;
use crate::parser::{parsable, kept, parsed_expr, wrong_token};
use crate::parser::bracket::parse_bracket_access;
use crate::parser::list::parse_list;
use crate::parser::literal::parse_literal;
use crate::parser::operation::parse_operation;
use crate::parser::object_construction::parse_object_construction;
use crate::parser::varcall::parse_variablecall;
use crate::parser::functioncall::parse_functioncall;
use crate::sloth::expression::{Expression, first_view};
use crate::sloth::program::SlothProgram;

verus! {

/// Parses the expression at the cursor. `first_expr` is the expression
/// before a period or a bracket, whose field, method or element this one
/// reads. A period or a bracket after the expression continues it.
pub fn parse_expression(stream: &mut TokenStream, program: &mut SlothProgram, warning: bool, first_expr: Option<Box<Expression>>) -> (r: Result<Expression, Error>)
    requires
        parsable(*old(stream)),
    ensures
        kept(*old(stream), *final(stream)),
        *final(program) == *old(program),
        parsed_expr(expression_spec(old(stream).items(), old(stream).cursor(), first_view(first_expr)), r, *old(stream), *final(stream)),
    decreases old(stream).items().len() - old(stream).cursor(), 3int,
{
    proof {
        reveal_with_fuel(expression_spec, 2);
    }
    // the first token tells the kind of the expression
    let expr = match stream.current() {
        Some((Token::Literal(_), _)) => parse_literal(stream, program, warning)?,
        Some((Token::Separator(Separator::OpenSquareBracket), _)) => match first_expr {
            Some(e) => parse_bracket_access(stream, program, warning, e)?,
            None => parse_list(stream, program, warning)?,
        },
        Some((Token::Operator(_), _)) => parse_operation(stream, program, warning)?,
        Some((Token::Keyword(Keyword::New), _)) => parse_object_construction(stream, program, warning)?,

        // function call or variable, as the next token tells
        Some((Token::Identifier(_), _)) => match stream.peek(1) {
            Some((Token::Separator(Separator::OpenParenthesis), _)) | Some((Token::Separator(Separator::Colon), _)) => {
                parse_functioncall(stream, program, warning, first_expr)?
            },
            _ => parse_variablecall(stream, program, first_expr, warning)?,
        },

        o => return Err(wrong_token(o, "expression")),
    };

    // a period or a bracket continues the expression
    match stream.current() {
        Some((Token::Separator(Separator::Period), _)) => {
            stream.next();
            parse_expression(stream, program, warning, Some(Box::new(expr)))
        },
        Some((Token::Separator(Separator::OpenSquareBracket), _)) => {
            parse_expression(stream, program, warning, Some(Box::new(expr)))
        },
        _ => Ok(expr),
    }
}

} // verus!
