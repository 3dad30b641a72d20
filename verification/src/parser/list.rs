//! Lists: `[e1 e2 ...]`.

use vstd::prelude::*;
use crate::errors::{Error, ErrorView};
use crate::lexer::separator::Separator;
use crate::lexer::token::Token;
use crate::lexer::tokenstream::TokenStream;
use crate::parser::grammar::{list_spec, items_spec, expect_spec};
use crate::lexer::token::TokenView;
use crate::position::PositionView;
use crate::parser::{parsable, kept, parsed_expr, expect_token, current_equal};
use crate::parser::expression::parse_expression;
use crate::sloth::expression::{Expression, ExpressionView, exprs_view, lemma_expr_view, lemma_exprs_view_push};
use crate::sloth::program::SlothProgram;

verus! {

/// Parses the list at the cursor: its expressions, between square brackets.
pub fn parse_list(stream: &mut TokenStream, program: &mut SlothProgram, warning: bool) -> (r: Result<Expression, Error>)
    requires
        parsable(*old(stream)),
    ensures
        kept(*old(stream), *final(stream)),
        *final(program) == *old(program),
        parsed_expr(list_spec(old(stream).items(), old(stream).cursor()), r, *old(stream), *final(stream)),
    decreases old(stream).items().len() - old(stream).cursor(), 1int,
{
    let ghost toks = stream.items();
    let (_, start_pos) = expect_token(stream, Token::Separator(Separator::OpenSquareBracket))?;
    let ghost j = stream.cursor();

    // each expression until the ]
    let mut exprs: Vec<Expression> = Vec::new();
    proof {
        assert(exprs_view(exprs@) =~= seq![]);
    }
    loop
        invariant
            kept(*old(stream), *stream),
            *program == *old(program),
            toks == old(stream).items(),
            old(stream).cursor() < j <= stream.cursor(),
            expect_spec(toks, old(stream).cursor(), TokenView::Separator(Separator::OpenSquareBracket))
                == Ok::<(PositionView, int), ErrorView>((start_pos@, j)),
            items_spec(toks, j, Separator::CloseSquareBracket, seq![])
                == items_spec(toks, stream.cursor(), Separator::CloseSquareBracket, exprs_view(exprs@)),
        ensures
            kept(*old(stream), *stream),
            *program == *old(program),
            old(stream).cursor() < j <= stream.cursor(),
            items_spec(toks, j, Separator::CloseSquareBracket, seq![])
                == Ok::<(Seq<ExpressionView>, int), ErrorView>((exprs_view(exprs@), stream.cursor())),
        decreases toks.len() - stream.cursor(),
    {
        let done = current_equal(stream, Token::Separator(Separator::CloseSquareBracket))?;
        if done {
            break;
        }
        let e = parse_expression(stream, program, warning, None)?;
        proof {
            lemma_exprs_view_push(exprs@, e);
        }
        exprs.push(e);
    }

    let (_, end_pos) = expect_token(stream, Token::Separator(Separator::CloseSquareBracket))?;
    let r = Expression::ListInit(exprs, start_pos.until(end_pos));
    proof {
        lemma_expr_view(r);
    }
    Ok(r)
}

} // verus!
