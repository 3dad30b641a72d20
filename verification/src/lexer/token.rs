//! Tokens: the words of a source file.

use vstd::prelude::*;
use crate::lexer::keyword::Keyword;
use crate::lexer::operator::Operator;
use crate::lexer::separator::Separator;
use crate::lexer::numbers::{float_syntax, parses_as_float, is_digit};
use crate::text::{string_of, concat3, str_eq};

verus! {

/// A token of a source file.
pub enum Token {
    Keyword(Keyword),
    Separator(Separator),
    Operator(Operator),
    Identifier(String),
    Literal(String),
}

/// The mathematical value of a [`Token`].
pub enum TokenView {
    Keyword(Keyword),
    Separator(Separator),
    Operator(Operator),
    Identifier(Seq<char>),
    Literal(Seq<char>),
}

impl View for Token {
    type V = TokenView;

    open spec fn view(&self) -> TokenView {
        match self {
            Token::Keyword(k) => TokenView::Keyword(*k),
            Token::Separator(s) => TokenView::Separator(*s),
            Token::Operator(o) => TokenView::Operator(*o),
            Token::Identifier(s) => TokenView::Identifier(s@),
            Token::Literal(s) => TokenView::Literal(s@),
        }
    }
}

/// Whether `c` is an ASCII letter.
pub open spec fn is_ascii_letter(c: char) -> bool {
    ('a' <= c <= 'z') || ('A' <= c <= 'Z')
}

/// Whether `s` is an identifier: `@` then digits, `@` then letters, or a
/// letter or `_` followed by letters, digits and `_`.
pub open spec fn identifier_syntax(s: Seq<char>) -> bool {
    ||| s.len() >= 2 && s[0] == '@' && forall|i: int| 1 <= i < s.len() ==> is_digit(#[trigger] s[i])
    ||| s.len() >= 2 && s[0] == '@' && forall|i: int| 1 <= i < s.len() ==> is_ascii_letter(#[trigger] s[i])
    ||| s.len() >= 1 && (is_ascii_letter(s[0]) || s[0] == '_') && forall|i: int|
        1 <= i < s.len() ==> (is_ascii_letter(#[trigger] s[i]) || is_digit(s[i]) || s[i] == '_')
}

/// Whether the regular expression `^(@[0-9]+|@[a-zA-Z]+|[a-zA-Z_][a-zA-Z0-9_]*)$`
/// matches `s` (`regex::Regex::is_match` of the regex crate). The contract
/// states the language of that expression: an anchored alternation of three
/// character-class sequences over ASCII ranges.
#[verifier::external_body]
fn identifier_regex_matches(s: &str) -> (r: bool)
    ensures
        r == identifier_syntax(s@),
{
    regex::Regex::new(r"^(@[0-9]+|@[a-zA-Z]+|[a-zA-Z_][a-zA-Z0-9_]*)$").unwrap().is_match(s)
}

/// Whether `s` is written as a literal: a string (starting with a quote),
/// a number, or a boolean.
pub open spec fn literal_syntax(s: Seq<char>) -> bool {
    ||| s.len() > 0 && s[0] == '"'
    ||| float_syntax(s)
    ||| s == "true"@
    ||| s == "false"@
}

/// The message of the error raised on a text that is no token.
pub open spec fn invalid_token_message(s: Seq<char>) -> Seq<char> {
    "Invalid token '"@ + s
        + "'. Note: identifiers can only be made of letters, numbers (not at the start) and '_'"@
}

/// The token written `s`: a keyword, a separator or an operator when `s`
/// is one, else a literal, else an identifier; an error message otherwise.
pub open spec fn token_spec(s: Seq<char>) -> Result<TokenView, Seq<char>> {
    if Keyword::parse_spec(s) is Some {
        Ok(TokenView::Keyword(Keyword::parse_spec(s)->0))
    } else if Separator::parse_spec(s) is Some {
        Ok(TokenView::Separator(Separator::parse_spec(s)->0))
    } else if Operator::parse_spec(s) is Some {
        Ok(TokenView::Operator(Operator::parse_spec(s)->0))
    } else if literal_syntax(s) {
        Ok(TokenView::Literal(s))
    } else if identifier_syntax(s) {
        Ok(TokenView::Identifier(s))
    } else {
        Err(invalid_token_message(s))
    }
}

/// The source text of a token.
pub open spec fn token_text(t: TokenView) -> Seq<char> {
    match t {
        TokenView::Keyword(k) => k.text(),
        TokenView::Separator(s) => s.text(),
        TokenView::Operator(o) => o.text(),
        TokenView::Identifier(s) => s,
        TokenView::Literal(s) => s,
    }
}

/// The text that `Debug` gives for a string slice: the characters between
/// double quotes, escaped (`format!("{:?}", s)` of std).
pub uninterp spec fn debug_quoted(s: Seq<char>) -> Seq<char>;

/// `format!("{:?}", s)` of std on a string slice; the contract names its
/// result, which depends on `s` alone, without writing out the escaping.
#[verifier::external_body]
fn debug_str(s: &str) -> (r: String)
    ensures
        r@ == debug_quoted(s@),
{
    format!("{:?}", s)
}

/// The text of a token as `Debug` writes it.
pub open spec fn token_debug(t: TokenView) -> Seq<char> {
    match t {
        TokenView::Keyword(k) => "Keyword("@ + k.debug_name() + ")"@,
        TokenView::Separator(s) => "Separator("@ + s.debug_name() + ")"@,
        TokenView::Operator(o) => "Operator("@ + o.debug_name() + ")"@,
        TokenView::Identifier(s) => "Identifier("@ + debug_quoted(s) + ")"@,
        TokenView::Literal(s) => "Literal("@ + debug_quoted(s) + ")"@,
    }
}

impl Token {
    /// The token corresponding to the given text: a keyword, separator or
    /// operator when the text is one, else a literal (string, number or
    /// boolean), else an identifier; an error message otherwise.
    pub fn from_str(string: &str) -> (r: Result<Token, String>)
        ensures
            match r {
                Ok(t) => token_spec(string@) == Ok::<TokenView, Seq<char>>(t@),
                Err(m) => token_spec(string@) == Err::<TokenView, Seq<char>>(m@),
            },
    {
        if let Ok(k) = Keyword::from_str(string) {
            return Ok(Token::Keyword(k));
        }
        if let Ok(s) = Separator::from_str(string) {
            return Ok(Token::Separator(s));
        }
        if let Ok(o) = Operator::from_str(string) {
            return Ok(Token::Operator(o));
        }
        let chars = crate::text::to_chars(string);
        if (chars.len() > 0 && chars[0] == '"') || parses_as_float(&chars) || str_eq(string, "true")
            || str_eq(string, "false") {
            Ok(Token::Literal(string_of(string)))
        } else if identifier_regex_matches(string) {
            Ok(Token::Identifier(string_of(string)))
        } else {
            Err(concat3(
                "Invalid token '",
                string,
                "'. Note: identifiers can only be made of letters, numbers (not at the start) and '_'",
            ))
        }
    }

    /// The token as `Debug` writes it, such as `Keyword(Define)` or
    /// `Identifier("x")`.
    pub fn to_string_formatted(&self) -> (r: String)
        ensures
            r@ == token_debug(self@),
    {
        match self {
            Token::Keyword(k) => concat3("Keyword(", k.variant_name().as_str(), ")"),
            Token::Separator(s) => concat3("Separator(", s.variant_name().as_str(), ")"),
            Token::Operator(o) => concat3("Operator(", o.variant_name().as_str(), ")"),
            Token::Identifier(x) => concat3("Identifier(", debug_str(x.as_str()).as_str(), ")"),
            Token::Literal(x) => concat3("Literal(", debug_str(x.as_str()).as_str(), ")"),
        }
    }

    /// The source text of the token.
    pub fn original_string(&self) -> (r: String)
        ensures
            r@ == token_text(self@),
    {
        match self {
            Token::Keyword(x) => x.to_string(),
            Token::Operator(x) => x.to_string(),
            Token::Separator(x) => x.to_string(),
            Token::Identifier(x) => x.clone(),
            Token::Literal(x) => x.clone(),
        }
    }

    /// A copy of the token.
    pub fn duplicate(&self) -> (r: Token)
        ensures
            r@ == self@,
    {
        match self {
            Token::Keyword(x) => Token::Keyword(*x),
            Token::Operator(x) => Token::Operator(*x),
            Token::Separator(x) => Token::Separator(*x),
            Token::Identifier(x) => Token::Identifier(x.clone()),
            Token::Literal(x) => Token::Literal(x.clone()),
        }
    }

    /// Whether the two tokens are the same.
    pub fn same(&self, other: &Token) -> (r: bool)
        ensures
            r == (self@ == other@),
    {
        match (self, other) {
            (Token::Keyword(a), Token::Keyword(b)) => *a == *b,
            (Token::Operator(a), Token::Operator(b)) => *a == *b,
            (Token::Separator(a), Token::Separator(b)) => *a == *b,
            (Token::Identifier(a), Token::Identifier(b)) => *a == *b,
            (Token::Literal(a), Token::Literal(b)) => *a == *b,
            _ => false,
        }
    }
}

impl Keyword {
    /// The name of the variant, as `Debug` writes it.
    pub open spec fn debug_name(self) -> Seq<char> {
        match self {
            Keyword::Builtin => "Builtin"@,
            Keyword::Import => "Import"@,
            Keyword::Static => "Static"@,
            Keyword::Structure => "Structure"@,
            Keyword::Define => "Define"@,
            Keyword::For => "For"@,
            Keyword::LeftArrow => "LeftArrow"@,
            Keyword::New => "New"@,
            Keyword::Equal => "Equal"@,
            Keyword::If => "If"@,
            Keyword::While => "While"@,
        }
    }

    /// The name of the variant, as `Debug` writes it.
    pub fn variant_name(&self) -> (r: String)
        ensures
            r@ == self.debug_name(),
    {
        match self {
            Keyword::Builtin => string_of("Builtin"),
            Keyword::Import => string_of("Import"),
            Keyword::Static => string_of("Static"),
            Keyword::Structure => string_of("Structure"),
            Keyword::Define => string_of("Define"),
            Keyword::For => string_of("For"),
            Keyword::LeftArrow => string_of("LeftArrow"),
            Keyword::New => string_of("New"),
            Keyword::Equal => string_of("Equal"),
            Keyword::If => string_of("If"),
            Keyword::While => string_of("While"),
        }
    }
}

impl Operator {
    /// The name of the variant, as `Debug` writes it.
    pub open spec fn debug_name(self) -> Seq<char> {
        match self {
            Operator::Add => "Add"@,
            Operator::Sub => "Sub"@,
            Operator::Mul => "Mul"@,
            Operator::Div => "Div"@,
            Operator::Mod => "Mod"@,
            Operator::Eq => "Eq"@,
            Operator::Gr => "Gr"@,
            Operator::Lw => "Lw"@,
            Operator::Ge => "Ge"@,
            Operator::Le => "Le"@,
            Operator::And => "And"@,
            Operator::Or => "Or"@,
            Operator::Inv => "Inv"@,
            Operator::Len => "Len"@,
        }
    }

    /// The name of the variant, as `Debug` writes it.
    pub fn variant_name(&self) -> (r: String)
        ensures
            r@ == self.debug_name(),
    {
        match self {
            Operator::Add => string_of("Add"),
            Operator::Sub => string_of("Sub"),
            Operator::Mul => string_of("Mul"),
            Operator::Div => string_of("Div"),
            Operator::Mod => string_of("Mod"),
            Operator::Eq => string_of("Eq"),
            Operator::Gr => string_of("Gr"),
            Operator::Lw => string_of("Lw"),
            Operator::Ge => string_of("Ge"),
            Operator::Le => string_of("Le"),
            Operator::And => string_of("And"),
            Operator::Or => string_of("Or"),
            Operator::Inv => string_of("Inv"),
            Operator::Len => string_of("Len"),
        }
    }
}

impl Separator {
    /// The name of the variant, as `Debug` writes it.
    pub open spec fn debug_name(self) -> Seq<char> {
        match self {
            Separator::OpenParenthesis => "OpenParenthesis"@,
            Separator::CloseParenthesis => "CloseParenthesis"@,
            Separator::OpenBracket => "OpenBracket"@,
            Separator::CloseBracket => "CloseBracket"@,
            Separator::OpenSquareBracket => "OpenSquareBracket"@,
            Separator::CloseSquareBracket => "CloseSquareBracket"@,
            Separator::SemiColon => "SemiColon"@,
            Separator::Colon => "Colon"@,
            Separator::Comma => "Comma"@,
            Separator::Line => "Line"@,
            Separator::Period => "Period"@,
            Separator::Tilde => "Tilde"@,
        }
    }

    /// The name of the variant, as `Debug` writes it.
    pub fn variant_name(&self) -> (r: String)
        ensures
            r@ == self.debug_name(),
    {
        match self {
            Separator::OpenParenthesis => string_of("OpenParenthesis"),
            Separator::CloseParenthesis => string_of("CloseParenthesis"),
            Separator::OpenBracket => string_of("OpenBracket"),
            Separator::CloseBracket => string_of("CloseBracket"),
            Separator::OpenSquareBracket => string_of("OpenSquareBracket"),
            Separator::CloseSquareBracket => string_of("CloseSquareBracket"),
            Separator::SemiColon => string_of("SemiColon"),
            Separator::Colon => string_of("Colon"),
            Separator::Comma => string_of("Comma"),
            Separator::Line => string_of("Line"),
            Separator::Period => string_of("Period"),
            Separator::Tilde => string_of("Tilde"),
        }
    }
}

/// The text a token was read from is the text the token gives back
/// (`Token::original_string`); and a keyword, a separator or an operator
/// is read back from its text.
pub proof fn lemma_token_round_trip(s: Seq<char>, t: TokenView)
    ensures
        token_spec(s) == Ok::<TokenView, Seq<char>>(t) ==> token_text(t) == s,
        (t is Keyword || t is Separator || t is Operator) ==> token_spec(token_text(t)) == Ok::<TokenView, Seq<char>>(t),
{
    if token_spec(s) == Ok::<TokenView, Seq<char>>(t) {
        if let TokenView::Separator(sep) = t {
            assert(s.len() == 1);
            assert(sep.text() =~= s);
        }
    }
    reveal_strlit("builtin");
    reveal_strlit("import");
    reveal_strlit("static");
    reveal_strlit("structure");
    reveal_strlit("define");
    reveal_strlit("for");
    reveal_strlit("->");
    reveal_strlit("new");
    reveal_strlit("=");
    reveal_strlit("if");
    reveal_strlit("while");
    crate::lexer::operator::reveal_operator_texts();
    match t {
        TokenView::Keyword(k) => {
            crate::lexer::keyword::lemma_keyword_round_trip(k);
        },
        TokenView::Separator(sep) => {
            crate::lexer::separator::lemma_separator_round_trip(sep);
            assert(Keyword::parse_spec(sep.text()) is None);
            assert(Operator::parse_spec(sep.text()) is None);
        },
        TokenView::Operator(o) => {
            crate::lexer::operator::lemma_operator_round_trip(o);
            assert(Keyword::parse_spec(o.text()) is None);
            assert(Separator::parse_spec(o.text()) is None);
        },
        _ => {},
    }
}

} // verus!
