//! Function calls: `module:f(e1 e2 ...)`, and method calls `e.f(...)`.

use vstd::prelude::*;
use crate::errors::{Error, ErrorView};
use crate::lexer::separator::Separator;
use crate::lexer::token::Token;
use crate::lexer::tokenstream::TokenStream;
use crate::parser::grammar::{call_spec, items_spec, expect_spec, module_check_spec, prefix_module};
use crate::lexer::token::TokenView;
use crate::lexer::tokenstream::entry_at;
use crate::position::PositionView;
use crate::sloth::types::opt_view;
use crate::parser::{module_view, parsable, kept, parsed_expr, expect_token, current_equal, module_check, wrong_token};
use crate::parser::expression::parse_expression;
use crate::position::Position;
use crate::sloth::expression::{Expression, ExpressionView, exprs_view, first_view, lemma_expr_view, lemma_exprs_view_push};
use crate::sloth::function::FunctionSignature;
use crate::sloth::program::SlothProgram;

verus! {

/// Parses the function call at the cursor: the function's name after its
/// module, if any, then the arguments between parentheses. When
/// `first_expr` is given, it is a call of a method of its value.
pub fn parse_functioncall(stream: &mut TokenStream, program: &mut SlothProgram, warning: bool, first_expr: Option<Box<Expression>>) -> (r: Result<Expression, Error>)
    requires
        parsable(*old(stream)),
    ensures
        kept(*old(stream), *final(stream)),
        *final(program) == *old(program),
        parsed_expr(call_spec(old(stream).items(), old(stream).cursor(), first_view(first_expr)), r, *old(stream), *final(stream)),
    decreases old(stream).items().len() - old(stream).cursor(), 1int,
{
    let ghost toks = stream.items();

    // the user can give a module
    let checked = module_check(stream)?;
    let ghost j0 = stream.cursor();
    let ghost mview = module_view(checked);
    let (module_name, temp_fpos): (Option<String>, Option<Position>) = match checked {
        Some((m, p)) => (Some(m), Some(p)),
        None => (None, None),
    };

    // the function's name
    let (func_name, first_pos) = match stream.current() {
        Some((Token::Identifier(n), n_pos)) => {
            let p = match temp_fpos {
                Some(p) => p,
                None => n_pos,
            };
            (n, p)
        },
        o => return Err(wrong_token(o, "function")),
    };
    stream.next();

    // opening parenthesis
    expect_token(stream, Token::Separator(Separator::OpenParenthesis))?;
    let ghost j = stream.cursor();

    // each argument
    let mut arg_exprs: Vec<Expression> = Vec::new();
    proof {
        assert(exprs_view(arg_exprs@) =~= seq![]);
    }
    loop
        invariant
            kept(*old(stream), *stream),
            *program == *old(program),
            toks == old(stream).items(),
            old(stream).cursor() < j <= stream.cursor(),
            module_check_spec(toks, old(stream).cursor()) == Ok::<(Option<(Seq<char>, PositionView)>, int), ErrorView>((mview, j0)),
            prefix_module(mview) == opt_view(module_name),
            entry_at(toks, j0) matches Some((TokenView::Identifier(n), np)) && n == func_name@
                && first_pos@ == match mview { Some((_, mp)) => mp, None => np },
            expect_spec(toks, j0 + 1, TokenView::Separator(Separator::OpenParenthesis)) matches Ok((_, jj)) && jj == j,
            items_spec(toks, j, Separator::CloseParenthesis, seq![])
                == items_spec(toks, stream.cursor(), Separator::CloseParenthesis, exprs_view(arg_exprs@)),
        ensures
            kept(*old(stream), *stream),
            *program == *old(program),
            old(stream).cursor() < j <= stream.cursor(),
            items_spec(toks, j, Separator::CloseParenthesis, seq![])
                == Ok::<(Seq<ExpressionView>, int), ErrorView>((exprs_view(arg_exprs@), stream.cursor())),
        decreases toks.len() - stream.cursor(),
    {
        let done = current_equal(stream, Token::Separator(Separator::CloseParenthesis))?;
        if done {
            break;
        }
        let e = parse_expression(stream, program, warning, None)?;
        proof {
            lemma_exprs_view_push(arg_exprs@, e);
        }
        arg_exprs.push(e);
    }

    // closing of the arguments
    let (_, end_pos) = expect_token(stream, Token::Separator(Separator::CloseParenthesis))?;

    let functioncall_pos = first_pos.until(end_pos);
    let func_sign = FunctionSignature::new(module_name, func_name, None, None, None);
    let r = Expression::FunctionCall(first_expr, func_sign, arg_exprs, functioncall_pos);
    proof {
        lemma_expr_view(r);
    }
    Ok(r)
}

} // verus!
