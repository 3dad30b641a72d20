//! The lexer: turns the text of a source file into a stream of tokens.

pub mod keyword;
pub mod operator;
pub mod separator;
pub mod numbers;
pub mod token;
pub mod tokeniser;
pub mod tokenstream;

use vstd::prelude::*;
use crate::errors::{Error, ErrorView};
use crate::lexer::tokenstream::TokenStream;
use crate::lexer::tokeniser::{from_text, tokenize_spec, lemma_tokenize_in_file};
use crate::lexer::tokenstream::in_file;
use crate::lexer::token::TokenView;
use crate::position::PositionView;

verus! {

/// The stream of the tokens of the text `text` of the file `filename`,
/// with its cursor on the first token; the syntax error at the first text
/// that is no token.
pub fn get_token_stream(filename: &str, text: &str) -> (r: Result<TokenStream, Error>)
    requires
        text@.len() <= usize::MAX / 4,
    ensures
        match r {
            Ok(s) => s.wf() && s.cursor() == 0 && s.file_name() == filename@
                && s.items().len() <= usize::MAX && in_file(s.items(), filename@)
                && tokenize_spec(filename@, text@) == Ok::<Seq<(TokenView, PositionView)>, ErrorView>(s.items()),
            Err(e) => tokenize_spec(filename@, text@) == Err::<Seq<(TokenView, PositionView)>, ErrorView>(e@),
        },
{
    let tokens = from_text(filename, text)?;
    let n = tokens.len();
    let s = TokenStream::new(crate::text::string_of(filename), tokens, n, 0);
    proof {
        assert(crate::lexer::tokeniser::tokens_view(tokens@).take(n as int) =~= crate::lexer::tokeniser::tokens_view(tokens@));
        lemma_tokenize_in_file(filename@, text@);
        s.lemma_items_len();
    }
    Ok(s)
}

} // verus!
