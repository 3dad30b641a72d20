//! The loop over the definitions of a file, in the form whose error on a
//! token that starts no definition names that token.

use vstd::prelude::*;
use crate::errors::{Error, ErrMsg, ErrKind, ErrorView, error_spec};
use crate::lexer::keyword::Keyword;
use crate::lexer::token::{Token, TokenView, token_text};
use crate::lexer::tokenstream::{TokenStream, entry_at};
use crate::parser::{FileStep, FileStepView, parsable, kept, parse_definition};
use crate::parser::grammar::{Tokens, advanced, definition_spec, import_spec};
use crate::parser::import::parse_import;
use crate::sloth::program::{SlothProgram, SlothProgramView};
use crate::sloth::types::opt_view;
use crate::text::string_of;

verus! {

/// The definitions of a file from index `i` on, added to the program
/// `prog`, as `file_spec` says, except that a token other than a keyword
/// is an error that names the token. On an error, also the program as the
/// parse left it.
pub open spec fn builder_file_spec(toks: Tokens, i: int, module: Option<Seq<char>>, warn: bool, prog: SlothProgramView) -> Result<(FileStepView, int, SlothProgramView), (ErrorView, SlothProgramView)>
    decreases toks.len() - i,
{
    match entry_at(toks, i) {
        None => Ok((FileStepView::Done, i, prog)),
        Some((TokenView::Keyword(k), p)) => if k == Keyword::Import {
            match import_spec(toks, i) {
                Err(e) => Err((e, prog)),
                Ok((f, pos, j)) => Ok((FileStepView::Import(f, pos), j, prog)),
            }
        } else {
            match definition_spec(toks, i, k, p, module, warn, prog) {
                Err(f) => Err(f),
                Ok((j, prog1)) => if !advanced(toks, i, j) {
                    Err((crate::parser::grammar::eof_error(), prog1))
                } else {
                    builder_file_spec(toks, j, module, warn, prog1)
                },
            }
        },
        Some((t, p)) => Err((
            error_spec((ErrKind::SyntaxError, "Expected keyword, got unexpected token '"@ + token_text(t) + "'"@), Some(p)),
            prog,
        )),
    }
}

/// Parses the definitions of a file from the cursor on, adding them to the
/// program, as `parser::parse_file` does; a token other than a keyword is
/// an error that names the token.
pub fn parse_file(stream: &mut TokenStream, program: &mut SlothProgram, warning: bool, module_name: &Option<String>) -> (r: Result<FileStep, Error>)
    requires
        parsable(*old(stream)),
    ensures
        kept(*old(stream), *final(stream)),
        match r {
            Ok(step) => builder_file_spec(old(stream).items(), old(stream).cursor(), opt_view(*module_name), warning, old(program)@)
                == Ok::<(FileStepView, int, SlothProgramView), (ErrorView, SlothProgramView)>((step@, final(stream).cursor(), final(program)@)),
            Err(e) => builder_file_spec(old(stream).items(), old(stream).cursor(), opt_view(*module_name), warning, old(program)@)
                == Err::<(FileStepView, int, SlothProgramView), (ErrorView, SlothProgramView)>((e@, final(program)@)),
        },
{
    let ghost toks = stream.items();
    let ghost m = opt_view(*module_name);

    // each definition, from its first token
    loop
        invariant
            kept(*old(stream), *stream),
            toks == old(stream).items(),
            m == opt_view(*module_name),
            builder_file_spec(toks, old(stream).cursor(), m, warning, old(program)@)
                == builder_file_spec(toks, stream.cursor(), m, warning, program@),
        decreases toks.len() - stream.cursor(),
    {
        match stream.current() {
            None => return Ok(FileStep::Done),
            Some((Token::Keyword(n), p)) => {
                if n == Keyword::Import {
                    let (filename, pos) = parse_import(stream)?;
                    return Ok(FileStep::Import(filename, pos));
                }
                parse_definition(stream, program, warning, module_name, n, p)?;
            },
            Some((v, p)) => {
                let mut error_msg = string_of("Expected keyword, got unexpected token '");
                error_msg.append(v.original_string().as_str());
                error_msg.append("'");
                return Err(Error::new(ErrMsg::SyntaxError(error_msg), Some(p)));
            },
        }
    }
}

} // verus!
