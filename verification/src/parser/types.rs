//! Types, as written in signatures and in the fields of structures.

use vstd::prelude::*;
use crate::errors::{Error, ErrorView};
use crate::lexer::separator::Separator;
use crate::lexer::token::Token;
use crate::lexer::tokenstream::TokenStream;
use crate::parser::grammar::{type_spec, advanced};
use crate::parser::{parsable, kept, wrong_token};
use crate::position::{Position, PositionView};
use crate::sloth::program::SlothProgram;
use crate::sloth::types::{Type, TypeView};
use crate::text::str_eq;

verus! {

/// Parses a type (`num`, `string`, `list[num]`, `Struct`,
/// `list[list[string]]`, ...) at the cursor: the type and its position.
pub fn parse_type(stream: &mut TokenStream, program: &mut SlothProgram, module_name: &Option<String>, warning: bool) -> (r: Result<(Type, Position), Error>)
    requires
        parsable(*old(stream)),
    ensures
        kept(*old(stream), *final(stream)),
        *final(program) == *old(program),
        match r {
            Ok((t, p)) => type_spec(old(stream).items(), old(stream).cursor())
                == Ok::<(TypeView, PositionView, int), ErrorView>((t@, p@, final(stream).cursor()))
                && advanced(old(stream).items(), old(stream).cursor(), final(stream).cursor())
                && p@.filename == old(stream).file_name(),
            Err(e) => type_spec(old(stream).items(), old(stream).cursor()) == Err::<(TypeView, PositionView, int), ErrorView>(e@),
        },
    decreases old(stream).items().len() - old(stream).cursor(),
{
    let (first_type_name, first_pos) = match stream.current() {
        Some((Token::Identifier(n), p)) => (n, p),
        o => return Err(wrong_token(o, "type")),
    };
    let mut last_pos = first_pos.duplicate();

    let return_type = if str_eq(first_type_name.as_str(), "any") {
        Type::Any
    } else if str_eq(first_type_name.as_str(), "num") {
        Type::Number
    } else if str_eq(first_type_name.as_str(), "bool") {
        Type::Boolean
    } else if str_eq(first_type_name.as_str(), "string") {
        Type::String
    } else if str_eq(first_type_name.as_str(), "list") {
        // [
        match stream.next() {
            Some((Token::Separator(Separator::OpenSquareBracket), _)) => {
                stream.next();
            },
            o => return Err(wrong_token(o, "'['")),
        };

        // the type of the elements of the list
        let (list_type, _) = parse_type(stream, program, module_name, warning)?;

        // ]
        match stream.current() {
            Some((Token::Separator(Separator::CloseSquareBracket), p)) => last_pos = p,
            o => return Err(wrong_token(o, "']'")),
        };

        Type::List(Box::new(list_type))
    } else {
        Type::Object(first_type_name)
    };

    stream.next();

    Ok((return_type, first_pos.until(last_pos)))
}

} // verus!
