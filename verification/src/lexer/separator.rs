//! Separators of the language.

use vstd::prelude::*;
use crate::text::{string_of, concat3};

verus! {

/// A separator: punctuation that delimits the parts of a statement.
#[derive(Clone, Copy, Debug, PartialEq, Eq, Structural)]
pub enum Separator {
    OpenParenthesis,
    CloseParenthesis,
    OpenBracket,
    CloseBracket,
    OpenSquareBracket,
    CloseSquareBracket,
    SemiColon,
    Colon,
    Comma,
    Line,
    Period,
    Tilde,
}

/// The characters that are separators, in the order of the lexer's table.
pub open spec fn separator_chars() -> Seq<char> {
    seq!['(', ')', '{', '}', '[', ']', ';', ':', ',', '|', '.', '~']
}

impl Separator {
    /// The character of the separator.
    pub open spec fn char_of(self) -> char {
        match self {
            Separator::OpenParenthesis => '(',
            Separator::CloseParenthesis => ')',
            Separator::OpenBracket => '{',
            Separator::CloseBracket => '}',
            Separator::OpenSquareBracket => '[',
            Separator::CloseSquareBracket => ']',
            Separator::SemiColon => ';',
            Separator::Colon => ':',
            Separator::Comma => ',',
            Separator::Line => '|',
            Separator::Period => '.',
            Separator::Tilde => '~',
        }
    }

    /// The source text of the separator.
    pub open spec fn text(self) -> Seq<char> {
        seq![self.char_of()]
    }

    /// The separator written with the character `c`, if any.
    pub open spec fn of_char_spec(c: char) -> Option<Separator> {
        if c == '(' { Some(Separator::OpenParenthesis) }
        else if c == ')' { Some(Separator::CloseParenthesis) }
        else if c == '{' { Some(Separator::OpenBracket) }
        else if c == '}' { Some(Separator::CloseBracket) }
        else if c == '[' { Some(Separator::OpenSquareBracket) }
        else if c == ']' { Some(Separator::CloseSquareBracket) }
        else if c == ';' { Some(Separator::SemiColon) }
        else if c == ':' { Some(Separator::Colon) }
        else if c == ',' { Some(Separator::Comma) }
        else if c == '|' { Some(Separator::Line) }
        else if c == '.' { Some(Separator::Period) }
        else if c == '~' { Some(Separator::Tilde) }
        else { None }
    }

    /// The separator written `s`, if any.
    pub open spec fn parse_spec(s: Seq<char>) -> Option<Separator> {
        if s.len() == 1 { Separator::of_char_spec(s[0]) } else { None }
    }

    /// The separator written with the character `c`, if any.
    pub fn from_char(c: char) -> (r: Option<Separator>)
        ensures
            r == Separator::of_char_spec(c),
    {
        if c == '(' { Some(Separator::OpenParenthesis) }
        else if c == ')' { Some(Separator::CloseParenthesis) }
        else if c == '{' { Some(Separator::OpenBracket) }
        else if c == '}' { Some(Separator::CloseBracket) }
        else if c == '[' { Some(Separator::OpenSquareBracket) }
        else if c == ']' { Some(Separator::CloseSquareBracket) }
        else if c == ';' { Some(Separator::SemiColon) }
        else if c == ':' { Some(Separator::Colon) }
        else if c == ',' { Some(Separator::Comma) }
        else if c == '|' { Some(Separator::Line) }
        else if c == '.' { Some(Separator::Period) }
        else if c == '~' { Some(Separator::Tilde) }
        else { None }
    }

    /// The source text of the separator.
    pub fn to_string(&self) -> (r: String)
        ensures
            r@ == self.text(),
    {
        let r = match self {
            Separator::OpenParenthesis => string_of("("),
            Separator::CloseParenthesis => string_of(")"),
            Separator::OpenBracket => string_of("{"),
            Separator::CloseBracket => string_of("}"),
            Separator::OpenSquareBracket => string_of("["),
            Separator::CloseSquareBracket => string_of("]"),
            Separator::SemiColon => string_of(";"),
            Separator::Colon => string_of(":"),
            Separator::Comma => string_of(","),
            Separator::Line => string_of("|"),
            Separator::Period => string_of("."),
            Separator::Tilde => string_of("~"),
        };
        proof {
            reveal_strlit("(");
            reveal_strlit(")");
            reveal_strlit("{");
            reveal_strlit("}");
            reveal_strlit("[");
            reveal_strlit("]");
            reveal_strlit(";");
            reveal_strlit(":");
            reveal_strlit(",");
            reveal_strlit("|");
            reveal_strlit(".");
            reveal_strlit("~");
        }
        r
    }

    /// The separator written `str`; an error message when `str` is no separator.
    pub fn from_str(str: &str) -> (r: Result<Separator, String>)
        ensures
            match r {
                Ok(s) => Separator::parse_spec(str@) == Some(s),
                Err(m) => Separator::parse_spec(str@) is None
                    && m@ == "Unimplemented separator '"@ + str@ + "'"@,
            },
    {
        if str.unicode_len() == 1 {
            match Separator::from_char(str.get_char(0)) {
                Some(s) => return Ok(s),
                None => {},
            }
        }
        Err(concat3("Unimplemented separator '", str, "'"))
    }
}

/// Reading back the text of a separator gives the separator, and each
/// separator stands in the lexer's table.
pub proof fn lemma_separator_round_trip(s: Separator)
    ensures
        Separator::parse_spec(s.text()) == Some(s),
        Separator::of_char_spec(s.char_of()) == Some(s),
        separator_chars().contains(s.char_of()),
{
    match s {
        Separator::OpenParenthesis => assert(separator_chars()[0] == s.char_of()),
        Separator::CloseParenthesis => assert(separator_chars()[1] == s.char_of()),
        Separator::OpenBracket => assert(separator_chars()[2] == s.char_of()),
        Separator::CloseBracket => assert(separator_chars()[3] == s.char_of()),
        Separator::OpenSquareBracket => assert(separator_chars()[4] == s.char_of()),
        Separator::CloseSquareBracket => assert(separator_chars()[5] == s.char_of()),
        Separator::SemiColon => assert(separator_chars()[6] == s.char_of()),
        Separator::Colon => assert(separator_chars()[7] == s.char_of()),
        Separator::Comma => assert(separator_chars()[8] == s.char_of()),
        Separator::Line => assert(separator_chars()[9] == s.char_of()),
        Separator::Period => assert(separator_chars()[10] == s.char_of()),
        Separator::Tilde => assert(separator_chars()[11] == s.char_of()),
    }
}

/// A character is in the separator table exactly when it writes a separator.
pub proof fn lemma_separator_chars(c: char)
    ensures
        separator_chars().contains(c) <==> Separator::of_char_spec(c) is Some,
{
    if Separator::of_char_spec(c) is Some {
        lemma_separator_round_trip(Separator::of_char_spec(c)->0);
    }
}

} // verus!
