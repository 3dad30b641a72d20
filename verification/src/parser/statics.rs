//! Static expressions: `static NAME = expression;`.

use vstd::prelude::*;
use crate::errors::{Error, ErrMsg, ErrorView, Warning, WarningView};
use crate::lexer::keyword::Keyword;
use crate::lexer::token::Token;
use crate::lexer::tokenstream::TokenStream;
use crate::parser::grammar::{static_spec, static_warning_text, advanced};
use crate::parser::{parsable, kept, wrong_token, expect_token, check_semicolon};
use crate::parser::expression::parse_expression;
use crate::position::Position;
use crate::sloth::program::{SlothProgram, SlothProgramView};
use crate::text::string_of;

verus! {

/// The text in capitals (`str::to_uppercase` of std, which follows the
/// Unicode case mapping).
pub uninterp spec fn uppercase(s: Seq<char>) -> Seq<char>;

/// `str::to_uppercase` of std; the contract names its result, which
/// depends on `s` alone, without writing out the Unicode case mapping.
#[verifier::external_body]
fn to_uppercase(s: &str) -> (r: String)
    ensures
        r@ == uppercase(s@),
{
    s.to_uppercase()
}

/// The warning about the name `name` of a static expression, at `pos`,
/// given the name in capitals `upper`: none when the name is in capitals
/// already.
pub fn static_name_warning(name: &String, upper: String, pos: Position) -> (r: Option<Warning>)
    ensures
        match r {
            Some(w) => upper@ != name@
                && w@ == (WarningView { text: static_warning_text(upper@), position: Some(pos@) }),
            None => upper@ == name@,
        },
{
    if upper == *name {
        None
    } else {
        let mut text = string_of("It is recommended to set in full uppercase the name of static expressions ('");
        text.append(upper.as_str());
        text.append("')");
        Some(Warning::new(text, Some(pos)))
    }
}

/// Parses the definition of a static expression at the cursor and adds it
/// to the program: `static`, its name, `=`, the expression, then a
/// semicolon. A name that is not in capitals raises a warning; a name
/// already defined is an error.
pub fn parse_static_expr(stream: &mut TokenStream, program: &mut SlothProgram, warning: bool) -> (r: Result<(), Error>)
    requires
        parsable(*old(stream)),
    ensures
        kept(*old(stream), *final(stream)),
        match r {
            Ok(()) => static_spec(old(stream).items(), old(stream).cursor(), warning, old(program)@)
                == Ok::<(int, SlothProgramView), (ErrorView, SlothProgramView)>((final(stream).cursor(), final(program)@))
                && advanced(old(stream).items(), old(stream).cursor(), final(stream).cursor()),
            Err(e) => static_spec(old(stream).items(), old(stream).cursor(), warning, old(program)@)
                == Err::<(int, SlothProgramView), (ErrorView, SlothProgramView)>((e@, final(program)@)),
        },
{
    // static keyword
    let (_, first_pos) = expect_token(stream, Token::Keyword(Keyword::Static))?;

    // the static's name
    let name = match stream.current() {
        Some((Token::Identifier(n), p)) => {
            // warn when the name is not in capitals
            if warning {
                let upper = to_uppercase(n.as_str());
                match static_name_warning(&n, upper, p) {
                    Some(w) => program.add_warning(w),
                    None => {},
                }
            }
            n
        },
        o => return Err(wrong_token(o, "static expr. name")),
    };
    stream.next();

    // the =
    expect_token(stream, Token::Keyword(Keyword::Equal))?;

    // next is the expression
    let expr = parse_expression(stream, program, warning, None)?;
    let full_pos = first_pos.until(expr.get_pos());

    // a semicolon is recommended here
    check_semicolon(stream, program, warning, &full_pos)?;

    // add the expression to the program's statics
    match program.push_static(&name, expr) {
        Ok(_) => Ok(()),
        Err(e) => Err(Error::new(ErrMsg::RuntimeError(e), Some(full_pos))),
    }
}

} // verus!
