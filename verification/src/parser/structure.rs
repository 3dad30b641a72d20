//! Definitions of structures: `structure Name { field: type; ... }`.

use vstd::prelude::*;
use crate::errors::{Error, ErrorView, WarningView};
use crate::lexer::separator::Separator;
use crate::lexer::token::{Token, TokenView};
use crate::lexer::tokenstream::{TokenStream, entry_at};
use crate::parser::grammar::{structure_spec, fields_spec, advanced, Failure};
use crate::parser::{parsable, kept, warned, wrong_token, expect_token, current_equal, check_semicolon};
use crate::parser::types::parse_type;
use crate::sloth::program::SlothProgram;
use crate::sloth::structure::{CustomDefinition, CustomDefinitionView, StructSignature, fields_view};
use crate::sloth::types::{Type, TypeView, clone_opt, opt_view};

verus! {

/// Parses the definition of a structure at the cursor, in the module
/// `module_name`: `structure`, its name, then its fields between brackets,
/// each a name, a colon and a type, with a semicolon after it.
pub fn parse_structure(stream: &mut TokenStream, program: &mut SlothProgram, module_name: &Option<String>, warning: bool) -> (r: Result<CustomDefinition, Error>)
    requires
        parsable(*old(stream)),
    ensures
        kept(*old(stream), *final(stream)),
        warned(old(program)@, final(program)@, final(program)@.warnings),
        match r {
            Ok(d) => structure_spec(old(stream).items(), old(stream).cursor(), opt_view(*module_name), warning, old(program)@.warnings)
                == Ok::<(CustomDefinitionView, int, Seq<WarningView>), Failure>((d@, final(stream).cursor(), final(program)@.warnings))
                && advanced(old(stream).items(), old(stream).cursor(), final(stream).cursor()),
            Err(e) => structure_spec(old(stream).items(), old(stream).cursor(), opt_view(*module_name), warning, old(program)@.warnings)
                == Err::<(CustomDefinitionView, int, Seq<WarningView>), Failure>((e@, final(program)@.warnings)),
        },
{
    let ghost toks = stream.items();
    let ghost i = stream.cursor();
    if stream.current().is_none() {
        return Err(wrong_token(None, "structure name"));
    }

    // name of the structure
    let (struct_name, first_pos) = match stream.next() {
        Some((Token::Identifier(n), p)) => (n, p),
        o => return Err(wrong_token(o, "structure name")),
    };

    // next is an open bracket
    match stream.next() {
        Some((Token::Separator(Separator::OpenBracket), _)) => {
            stream.next();
        },
        o => return Err(wrong_token(o, "'{{'")),
    }

    let mut fields: Vec<(String, Type)> = Vec::new();
    proof {
        assert(fields_view(fields@) =~= seq![]);
    }

    // each field of the structure, until a closing bracket
    loop
        invariant
            kept(*old(stream), *stream),
            warned(old(program)@, program@, program@.warnings),
            toks == old(stream).items(),
            i == old(stream).cursor(),
            i + 3 <= stream.cursor(),
            entry_at(toks, i + 1) == Some((TokenView::Identifier(struct_name@), first_pos@)),
            entry_at(toks, i + 2) matches Some((TokenView::Separator(Separator::OpenBracket), _)),
            fields_spec(toks, i + 3, first_pos@, warning, seq![], old(program)@.warnings)
                == fields_spec(toks, stream.cursor(), first_pos@, warning, fields_view(fields@), program@.warnings),
        ensures
            kept(*old(stream), *stream),
            warned(old(program)@, program@, program@.warnings),
            i + 3 <= stream.cursor() < toks.len(),
            fields_spec(toks, i + 3, first_pos@, warning, seq![], old(program)@.warnings)
                == Ok::<(Seq<(Seq<char>, TypeView)>, int, Seq<WarningView>), Failure>((
                    fields_view(fields@),
                    stream.cursor(),
                    program@.warnings,
                )),
        decreases toks.len() - stream.cursor(),
    {
        let done = current_equal(stream, Token::Separator(Separator::CloseBracket))?;
        if done {
            break;
        }

        // name of the field
        let field_name = match stream.current() {
            Some((Token::Identifier(f), _)) => {
                stream.next();
                f
            },
            o => return Err(wrong_token(o, "field name or '}}'")),
        };

        // colon
        expect_token(stream, Token::Separator(Separator::Colon))?;

        // the type of the field
        let (field_type, type_pos) = parse_type(stream, program, module_name, warning)?;

        proof {
            assert(fields_view(fields@.push((field_name, field_type)))
                =~= fields_view(fields@).push((field_name@, field_type@)));
        }
        fields.push((field_name, field_type));

        // a semicolon here is recommended, but not necessary
        check_semicolon(stream, program, warning, &first_pos.until(type_pos))?;
    }
    stream.next();

    let signature = StructSignature::new(clone_opt(module_name), struct_name);
    Ok(CustomDefinition::new(signature, fields))
}

} // verus!
