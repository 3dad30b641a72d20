//! Imports of built-ins: `builtin module;` or `builtin module:name;`.

use vstd::prelude::*;
use crate::builtins::{BuiltInImport, BuiltInImportView, strings_view};
use crate::errors::{Error, ErrMsg, ErrorView, WarningView};
use crate::lexer::keyword::Keyword;
use crate::lexer::separator::Separator;
use crate::lexer::token::Token;
use crate::lexer::tokenstream::TokenStream;
use crate::parser::grammar::{builtin_spec, advanced, Failure};
use crate::parser::{parsable, kept, warned, wrong_token, expect_token, current_equal, check_semicolon};
use crate::sloth::program::SlothProgram;

verus! {

/// Parses the import of built-ins at the cursor: `builtin`, the module,
/// and a colon and the name of one of its built-ins when only that one is
/// imported; then a semicolon. The import is checked: its module, and the
/// built-in it names, must exist.
pub fn parse_builtin(stream: &mut TokenStream, program: &mut SlothProgram, warning: bool) -> (r: Result<BuiltInImport, Error>)
    requires
        parsable(*old(stream)),
    ensures
        kept(*old(stream), *final(stream)),
        warned(old(program)@, final(program)@, final(program)@.warnings),
        match r {
            Ok(imp) => builtin_spec(old(stream).items(), old(stream).cursor(), warning, old(program)@.warnings)
                == Ok::<(BuiltInImportView, int, Seq<WarningView>), Failure>((imp@, final(stream).cursor(), final(program)@.warnings))
                && advanced(old(stream).items(), old(stream).cursor(), final(stream).cursor()),
            Err(e) => builtin_spec(old(stream).items(), old(stream).cursor(), warning, old(program)@.warnings)
                == Err::<(BuiltInImportView, int, Seq<WarningView>), Failure>((e@, final(program)@.warnings)),
        },
{
    // "builtin" keyword
    let (_, mut pos) = expect_token(stream, Token::Keyword(Keyword::Builtin))?;

    // module name
    let module = match stream.current() {
        Some((Token::Identifier(n), p)) => {
            pos = pos.until(p);
            n
        },
        o => return Err(wrong_token(o, "module")),
    };

    stream.next();

    // a ':' means that one element of the module is imported, not all of it
    let is_particular = current_equal(stream, Token::Separator(Separator::Colon))?;

    // the imported element
    let builtin = if is_particular {
        let v = match stream.next() {
            Some((Token::Identifier(n), p)) => {
                pos = pos.until(p);
                let mut v: Vec<String> = Vec::new();
                v.push(n);
                v
            },
            o => return Err(wrong_token(o, "function or structure name")),
        };
        stream.next();
        proof {
            assert(strings_view(v@) =~= seq![v@[0]@]);
        }
        Some(v)
    } else {
        None
    };

    check_semicolon(stream, program, warning, &pos)?;

    let import = BuiltInImport::new(module, builtin);

    match import.is_valid() {
        Ok(..) => Ok(import),
        Err(e) => Err(Error::new(ErrMsg::ImportError(e), Some(pos))),
    }
}

} // verus!
