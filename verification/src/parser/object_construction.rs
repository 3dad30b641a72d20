//! Constructions of structures: `new module:S(e1 e2 ...)`.

use vstd::prelude::*;
use crate::errors::{Error, ErrorView};
use crate::lexer::keyword::Keyword;
use crate::lexer::separator::Separator;
use crate::lexer::token::Token;
use crate::lexer::tokenstream::TokenStream;
use crate::parser::grammar::{object_spec, items_spec, expect_spec, module_check_spec, prefix_module};
use crate::lexer::token::TokenView;
use crate::lexer::tokenstream::entry_at;
use crate::position::PositionView;
use crate::sloth::types::opt_view;
use crate::parser::{module_view, parsable, kept, parsed_expr, expect_token, current_equal, module_check, wrong_token};
use crate::parser::expression::parse_expression;
use crate::sloth::expression::{Expression, ExpressionView, exprs_view, lemma_expr_view, lemma_exprs_view_push};
use crate::sloth::program::SlothProgram;
use crate::sloth::structure::StructSignature;

verus! {

/// Parses the construction of a structure at the cursor: `new`, the
/// structure's name after its module, if any, then the values of its
/// fields between parentheses.
pub fn parse_object_construction(stream: &mut TokenStream, program: &mut SlothProgram, warning: bool) -> (r: Result<Expression, Error>)
    requires
        parsable(*old(stream)),
    ensures
        kept(*old(stream), *final(stream)),
        *final(program) == *old(program),
        parsed_expr(object_spec(old(stream).items(), old(stream).cursor()), r, *old(stream), *final(stream)),
    decreases old(stream).items().len() - old(stream).cursor(), 1int,
{
    let ghost toks = stream.items();
    let (_, first_pos) = expect_token(stream, Token::Keyword(Keyword::New))?;
    let ghost j0 = stream.cursor();

    // a module, if a ':' follows its name
    let checked = module_check(stream)?;
    let ghost k = stream.cursor();
    let ghost mview = module_view(checked);
    let module_name = match checked {
        Some((m, _)) => Some(m),
        None => None,
    };

    let struct_name = match stream.current() {
        Some((Token::Identifier(n), _)) => {
            stream.next();
            n
        },
        o => return Err(wrong_token(o, "structure")),
    };

    // opening of the arguments
    expect_token(stream, Token::Separator(Separator::OpenParenthesis))?;
    let ghost j = stream.cursor();

    // the expressions, until a closing parenthesis
    let mut exprs: Vec<Expression> = Vec::new();
    proof {
        assert(exprs_view(exprs@) =~= seq![]);
    }
    loop
        invariant
            kept(*old(stream), *stream),
            *program == *old(program),
            toks == old(stream).items(),
            old(stream).cursor() < j <= stream.cursor(),
            expect_spec(toks, old(stream).cursor(), TokenView::Keyword(Keyword::New))
                == Ok::<(PositionView, int), ErrorView>((first_pos@, j0)),
            module_check_spec(toks, j0) == Ok::<(Option<(Seq<char>, PositionView)>, int), ErrorView>((mview, k)),
            prefix_module(mview) == opt_view(module_name),
            entry_at(toks, k) matches Some((TokenView::Identifier(n), _)) && n == struct_name@,
            expect_spec(toks, k + 1, TokenView::Separator(Separator::OpenParenthesis)) matches Ok((_, jj)) && jj == j,
            items_spec(toks, j, Separator::CloseParenthesis, seq![])
                == items_spec(toks, stream.cursor(), Separator::CloseParenthesis, exprs_view(exprs@)),
        ensures
            kept(*old(stream), *stream),
            *program == *old(program),
            old(stream).cursor() < j <= stream.cursor(),
            items_spec(toks, j, Separator::CloseParenthesis, seq![])
                == Ok::<(Seq<ExpressionView>, int), ErrorView>((exprs_view(exprs@), stream.cursor())),
        decreases toks.len() - stream.cursor(),
    {
        let done = current_equal(stream, Token::Separator(Separator::CloseParenthesis))?;
        if done {
            break;
        }
        let e = parse_expression(stream, program, warning, None)?;
        proof {
            lemma_exprs_view_push(exprs@, e);
        }
        exprs.push(e);
    }

    // closing of the arguments
    let (_, end_pos) = expect_token(stream, Token::Separator(Separator::CloseParenthesis))?;

    let signature = StructSignature::new(module_name, struct_name);
    let r = Expression::ObjectConstruction(signature, exprs, first_pos.until(end_pos));
    proof {
        lemma_expr_view(r);
    }
    Ok(r)
}

} // verus!
