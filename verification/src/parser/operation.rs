//! Operations, in Polish notation: `+ a b`, `! a`.

use vstd::prelude::*;
use crate::errors::Error;
use crate::lexer::operator::Operator;
use crate::lexer::token::Token;
use crate::lexer::tokenstream::TokenStream;
use crate::parser::grammar::{operation_spec, one_operand};
use crate::parser::{parsable, kept, parsed_expr, wrong_token};
use crate::parser::expression::parse_expression;
use crate::sloth::expression::{Expression, exprs_view, lemma_expr_view};
use crate::sloth::function::FunctionSignature;
use crate::sloth::program::SlothProgram;
use crate::sloth::types::Type;
use crate::text::string_of;

verus! {

/// The name of the function implementing the operator: `@` and its name.
fn op_func_name(operator: &Operator) -> (r: String)
    ensures
        r@ == "@"@ + operator.name(),
{
    let mut name = string_of("@");
    name.append(operator.get_name().as_str());
    name
}

/// Whether the operator takes one operand only.
fn is_one_operand(operator: Operator) -> (r: bool)
    ensures
        r == one_operand(operator),
{
    operator == Operator::Inv || operator == Operator::Len
}

/// Parses the operation at the cursor: the operator, then its operand or
/// its two operands. It is a call of the function implementing the
/// operator, whose signature is completed when the call is evaluated.
pub fn parse_operation(stream: &mut TokenStream, program: &mut SlothProgram, warning: bool) -> (r: Result<Expression, Error>)
    requires
        parsable(*old(stream)),
    ensures
        kept(*old(stream), *final(stream)),
        *final(program) == *old(program),
        parsed_expr(operation_spec(old(stream).items(), old(stream).cursor()), r, *old(stream), *final(stream)),
    decreases old(stream).items().len() - old(stream).cursor(), 1int,
{
    // the first token is the operator
    let (operator, first_pos) = match stream.current() {
        Some((Token::Operator(s), p)) => {
            stream.next();
            (s, p)
        },
        o => return Err(wrong_token(o, "operator")),
    };

    let lhs = parse_expression(stream, program, warning, None)?;
    let lhs_pos = lhs.get_pos();

    let no_inputs: Vec<(Type, bool)> = Vec::new();
    proof {
        assert(no_inputs@.map_values(|p: (Type, bool)| (p.0@, p.1)) =~= seq![]);
    }
    let sign = FunctionSignature::new(None, op_func_name(&operator), None, Some(no_inputs), Some(Type::Any));
    let ghost lv = lhs@;

    let func_call = if !is_one_operand(operator) {
        let rhs = parse_expression(stream, program, warning, None)?;
        let rhs_pos = rhs.get_pos();
        let mut args: Vec<Expression> = Vec::new();
        args.push(lhs);
        let ghost rv = rhs@;
        args.push(rhs);
        assert(exprs_view(args@) =~= seq![lv, rv]);
        Expression::FunctionCall(None, sign, args, first_pos.until(rhs_pos))
    } else {
        let mut args: Vec<Expression> = Vec::new();
        args.push(lhs);
        assert(exprs_view(args@) =~= seq![lv]);
        Expression::FunctionCall(None, sign, args, first_pos.until(lhs_pos))
    };
    proof {
        lemma_expr_view(func_call);
    }

    Ok(func_call)
}

} // verus!
