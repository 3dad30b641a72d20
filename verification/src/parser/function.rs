//! Definitions of functions and methods:
//! `define name for Owner: T1 ~T2 -> T { statements }`.

use vstd::prelude::*;
use crate::errors::{Error, ErrorView, WarningView};
use crate::lexer::keyword::Keyword;
use crate::lexer::separator::Separator;
use crate::lexer::token::Token;
use crate::lexer::tokenstream::TokenStream;
use crate::parser::grammar::{function_spec, inputs_spec, advanced, Failure};
use crate::parser::{parsable, kept, warned, wrong_token, expect_token, current_equal};
use crate::parser::statement::parse_block;
use crate::parser::types::parse_type;
use crate::sloth::function::{CustomFunction, CustomFunctionView, FunctionSignature};
use crate::sloth::program::SlothProgram;
use crate::sloth::types::{Type, TypeView, clone_opt, opt_view};

verus! {

/// Parses the input types of a function, until `->`, which is not read:
/// each a type, after a `~` when the argument is passed by reference.
fn parse_inputs(stream: &mut TokenStream, program: &mut SlothProgram, module_name: &Option<String>, warning: bool) -> (r: Result<Vec<(Type, bool)>, Error>)
    requires
        parsable(*old(stream)),
    ensures
        kept(*old(stream), *final(stream)),
        *final(program) == *old(program),
        match r {
            Ok(v) => inputs_spec(old(stream).items(), old(stream).cursor(), seq![])
                == Ok::<(Seq<(TypeView, bool)>, int), ErrorView>((
                    v@.map_values(|p: (Type, bool)| (p.0@, p.1)),
                    final(stream).cursor(),
                )) && old(stream).cursor() <= final(stream).cursor(),
            Err(e) => inputs_spec(old(stream).items(), old(stream).cursor(), seq![])
                == Err::<(Seq<(TypeView, bool)>, int), ErrorView>(e@),
        },
{
    let ghost toks = stream.items();
    let mut input_types: Vec<(Type, bool)> = Vec::new();
    proof {
        assert(input_types@.map_values(|p: (Type, bool)| (p.0@, p.1)) =~= seq![]);
    }
    loop
        invariant
            kept(*old(stream), *stream),
            *program == *old(program),
            toks == old(stream).items(),
            old(stream).cursor() <= stream.cursor(),
            inputs_spec(toks, old(stream).cursor(), seq![])
                == inputs_spec(toks, stream.cursor(), input_types@.map_values(|p: (Type, bool)| (p.0@, p.1))),
        ensures
            kept(*old(stream), *stream),
            *program == *old(program),
            old(stream).cursor() <= stream.cursor(),
            inputs_spec(toks, old(stream).cursor(), seq![]) == Ok::<(Seq<(TypeView, bool)>, int), ErrorView>((
                input_types@.map_values(|p: (Type, bool)| (p.0@, p.1)),
                stream.cursor(),
            )),
        decreases toks.len() - stream.cursor(),
    {
        let done = current_equal(stream, Token::Keyword(Keyword::LeftArrow))?;
        if done {
            break;
        }
        let ghost i = stream.cursor();
        let by_ref = current_equal(stream, Token::Separator(Separator::Tilde))?;
        if by_ref {
            stream.next();
        }
        let (arg_type, _) = parse_type(stream, program, module_name, warning)?;
        proof {
            assert(advanced(toks, i, stream.cursor()));
            assert(input_types@.push((arg_type, by_ref)).map_values(|p: (Type, bool)| (p.0@, p.1))
                =~= input_types@.map_values(|p: (Type, bool)| (p.0@, p.1)).push((arg_type@, by_ref)));
        }
        input_types.push((arg_type, by_ref));
    }
    Ok(input_types)
}

/// Parses the definition of a function at the cursor, in the module
/// `module_name`: `define`, its name, `for` and the owner type for a
/// method, a colon, the input types, `->`, the output type, then its
/// statements between brackets.
pub fn parse_function(stream: &mut TokenStream, program: &mut SlothProgram, module_name: &Option<String>, warning: bool) -> (r: Result<CustomFunction, Error>)
    requires
        parsable(*old(stream)),
    ensures
        kept(*old(stream), *final(stream)),
        warned(old(program)@, final(program)@, final(program)@.warnings),
        match r {
            Ok(f) => function_spec(old(stream).items(), old(stream).cursor(), opt_view(*module_name), warning, old(program)@.warnings)
                == Ok::<(CustomFunctionView, int, Seq<WarningView>), Failure>((f@, final(stream).cursor(), final(program)@.warnings))
                && advanced(old(stream).items(), old(stream).cursor(), final(stream).cursor()),
            Err(e) => function_spec(old(stream).items(), old(stream).cursor(), opt_view(*module_name), warning, old(program)@.warnings)
                == Err::<(CustomFunctionView, int, Seq<WarningView>), Failure>((e@, final(program)@.warnings)),
        },
{
    // "define" keyword
    expect_token(stream, Token::Keyword(Keyword::Define))?;

    // function name
    let func_name = match stream.current() {
        Some((Token::Identifier(n), _)) => {
            stream.next();
            n
        },
        o => return Err(wrong_token(o, "function")),
    };

    // method: 'for' and the owner type
    let owner_type = match stream.current() {
        Some((Token::Keyword(Keyword::For), _)) => {
            stream.next();
            Some(parse_type(stream, program, module_name, warning)?.0)
        },
        _ => None,
    };

    // colon
    expect_token(stream, Token::Separator(Separator::Colon))?;

    // input types until '->'
    let input_types = parse_inputs(stream, program, module_name, warning)?;

    // '->'
    expect_token(stream, Token::Keyword(Keyword::LeftArrow))?;

    // output type
    let (output_type, _) = parse_type(stream, program, module_name, warning)?;

    // open bracket
    expect_token(stream, Token::Separator(Separator::OpenBracket))?;

    // each statement until '}'
    let statements = parse_block(stream, program, warning)?;

    // '}'
    expect_token(stream, Token::Separator(Separator::CloseBracket))?;

    let r = CustomFunction {
        signature: FunctionSignature::new(clone_opt(module_name), func_name, owner_type, Some(input_types), Some(output_type)),
        instructions: statements,
    };
    Ok(r)
}

} // verus!
