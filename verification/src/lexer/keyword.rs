//! Keywords of the language.

use vstd::prelude::*;
use crate::text::{str_eq, string_of, concat3};

verus! {

/// A keyword of the language.
#[derive(Clone, Copy, Debug, PartialEq, Eq, Structural)]
pub enum Keyword {
    Builtin,
    Import,
    Static,
    Structure,
    Define,
    For,
    LeftArrow,
    New,
    Equal,
    If,
    While,
}

/// The text of each keyword, in the order the lexer tries them.
pub open spec fn keyword_texts() -> Seq<Seq<char>> {
    seq!["define"@, "->"@, "="@, "if"@, "while"@, "builtin"@, "for"@, "new"@, "import"@, "structure"@, "static"@]
}

impl Keyword {
    /// The source text of the keyword.
    pub open spec fn text(self) -> Seq<char> {
        match self {
            Keyword::Builtin => "builtin"@,
            Keyword::Import => "import"@,
            Keyword::Static => "static"@,
            Keyword::Structure => "structure"@,
            Keyword::Define => "define"@,
            Keyword::For => "for"@,
            Keyword::LeftArrow => "->"@,
            Keyword::New => "new"@,
            Keyword::Equal => "="@,
            Keyword::If => "if"@,
            Keyword::While => "while"@,
        }
    }

    /// The keyword written `s`, if any.
    pub open spec fn parse_spec(s: Seq<char>) -> Option<Keyword> {
        if s == "builtin"@ { Some(Keyword::Builtin) }
        else if s == "import"@ { Some(Keyword::Import) }
        else if s == "static"@ { Some(Keyword::Static) }
        else if s == "structure"@ { Some(Keyword::Structure) }
        else if s == "define"@ { Some(Keyword::Define) }
        else if s == "for"@ { Some(Keyword::For) }
        else if s == "->"@ { Some(Keyword::LeftArrow) }
        else if s == "new"@ { Some(Keyword::New) }
        else if s == "="@ { Some(Keyword::Equal) }
        else if s == "if"@ { Some(Keyword::If) }
        else if s == "while"@ { Some(Keyword::While) }
        else { None }
    }

    /// The source text of the keyword.
    pub fn to_string(&self) -> (r: String)
        ensures
            r@ == self.text(),
    {
        match self {
            Keyword::Builtin => string_of("builtin"),
            Keyword::Import => string_of("import"),
            Keyword::Static => string_of("static"),
            Keyword::Structure => string_of("structure"),
            Keyword::Define => string_of("define"),
            Keyword::For => string_of("for"),
            Keyword::LeftArrow => string_of("->"),
            Keyword::New => string_of("new"),
            Keyword::Equal => string_of("="),
            Keyword::If => string_of("if"),
            Keyword::While => string_of("while"),
        }
    }

    /// The keyword written `str`; an error message when `str` is no keyword.
    pub fn from_str(str: &str) -> (r: Result<Keyword, String>)
        ensures
            match r {
                Ok(k) => Keyword::parse_spec(str@) == Some(k),
                Err(m) => Keyword::parse_spec(str@) is None
                    && m@ == "Unimplemented keyword '"@ + str@ + "'"@,
            },
    {
        if str_eq(str, "builtin") { Ok(Keyword::Builtin) }
        else if str_eq(str, "import") { Ok(Keyword::Import) }
        else if str_eq(str, "static") { Ok(Keyword::Static) }
        else if str_eq(str, "structure") { Ok(Keyword::Structure) }
        else if str_eq(str, "define") { Ok(Keyword::Define) }
        else if str_eq(str, "for") { Ok(Keyword::For) }
        else if str_eq(str, "->") { Ok(Keyword::LeftArrow) }
        else if str_eq(str, "new") { Ok(Keyword::New) }
        else if str_eq(str, "=") { Ok(Keyword::Equal) }
        else if str_eq(str, "if") { Ok(Keyword::If) }
        else if str_eq(str, "while") { Ok(Keyword::While) }
        else { Err(concat3("Unimplemented keyword '", str, "'")) }
    }
}

/// Reading back the text of a keyword gives the keyword.
pub proof fn lemma_keyword_round_trip(k: Keyword)
    ensures
        Keyword::parse_spec(k.text()) == Some(k),
        keyword_texts().contains(k.text()),
{
    reveal_strlit("builtin");
    reveal_strlit("import");
    reveal_strlit("static");
    reveal_strlit("structure");
    reveal_strlit("define");
    reveal_strlit("for");
    reveal_strlit("->");
    reveal_strlit("new");
    reveal_strlit("=");
    reveal_strlit("if");
    reveal_strlit("while");
    assert("builtin"@[0] == 'b' && "import"@[0] == 'i' && "static"@[0] == 's');
    assert("structure"@[0] == 's' && "define"@[0] == 'd' && "for"@[0] == 'f');
    assert("->"@[0] == '-' && "new"@[0] == 'n' && "="@[0] == '=');
    assert("if"@[0] == 'i' && "while"@[0] == 'w');
    match k {
        Keyword::Define => assert(keyword_texts()[0] == k.text()),
        Keyword::LeftArrow => assert(keyword_texts()[1] == k.text()),
        Keyword::Equal => assert(keyword_texts()[2] == k.text()),
        Keyword::If => assert(keyword_texts()[3] == k.text()),
        Keyword::While => assert(keyword_texts()[4] == k.text()),
        Keyword::Builtin => assert(keyword_texts()[5] == k.text()),
        Keyword::For => assert(keyword_texts()[6] == k.text()),
        Keyword::New => assert(keyword_texts()[7] == k.text()),
        Keyword::Import => assert(keyword_texts()[8] == k.text()),
        Keyword::Structure => assert(keyword_texts()[9] == k.text()),
        Keyword::Static => assert(keyword_texts()[10] == k.text()),
    }
}

} // verus!
