//! Imports of other source files: `import "file";`.

use vstd::prelude::*;
use crate::errors::{Error, ErrMsg, ErrorView};
use crate::lexer::keyword::Keyword;
use crate::lexer::token::Token;
use crate::lexer::tokenstream::TokenStream;
use crate::parser::grammar::import_spec;
use crate::parser::{parsable, kept, wrong_token, expect_token};
use crate::position::{Position, PositionView};
use crate::text::string_of;

verus! {

/// The index of the first newline of `s` from index `k` on, or the length
/// of `s` when there is none.
pub open spec fn line_end(s: Seq<char>, k: int) -> int
    decreases s.len() - k,
{
    if k < 0 || k >= s.len() {
        s.len() as int
    } else if s[k] == '\n' {
        k
    } else {
        line_end(s, k + 1)
    }
}

/// The index of the last quote of `s` among the indexes from 1 up to `k`
/// excluded, if any.
pub open spec fn last_quote(s: Seq<char>, k: int) -> Option<int>
    decreases k,
{
    if k <= 1 {
        None
    } else if s[k - 1] == '"' {
        Some(k - 1)
    } else {
        last_quote(s, k - 1)
    }
}

/// What the regular expression `^"(.*)"` captures in `s`: `s` starts with
/// a quote, and the capture runs up to the last quote before the first
/// newline (`.` takes no newline, and `*` takes as much as it can).
pub open spec fn quoted_name(s: Seq<char>) -> Option<Seq<char>> {
    if s.len() > 0 && s[0] == '"' {
        match last_quote(s, line_end(s, 1)) {
            Some(q) => Some(s.subrange(1, q)),
            None => None,
        }
    } else {
        None
    }
}

/// What the regular expression `^"(.*)"` captures in `s`
/// (`regex::Regex::captures` of the regex crate, group 1), as
/// `quoted_name` states it.
#[verifier::external_body]
fn capture_filename(s: &str) -> (r: Option<String>)
    ensures
        match r {
            Some(f) => quoted_name(s@) == Some(f@),
            None => quoted_name(s@) is None,
        },
{
    let re = regex::Regex::new(r#"^"(.*)""#).unwrap();
    match re.captures(s) {
        Some(cap) => cap.get(1).map(|m| m.as_str().to_string()),
        None => None,
    }
}

/// Parses the import of a source file at the cursor: `import` and the
/// file's name, as a string literal. Gives the name, and the position of
/// the statement, for the semicolon that follows it once the file is
/// parsed.
pub fn parse_import(stream: &mut TokenStream) -> (r: Result<(String, Position), Error>)
    requires
        parsable(*old(stream)),
    ensures
        kept(*old(stream), *final(stream)),
        match r {
            Ok((f, p)) => import_spec(old(stream).items(), old(stream).cursor())
                == Ok::<(Seq<char>, PositionView, int), ErrorView>((f@, p@, final(stream).cursor())),
            Err(e) => import_spec(old(stream).items(), old(stream).cursor())
                == Err::<(Seq<char>, PositionView, int), ErrorView>(e@),
        },
{
    // import keyword
    let (_, first_pos) = expect_token(stream, Token::Keyword(Keyword::Import))?;

    // name of the file, as a literal (not an identifier)
    let (filename, last_pos) = match stream.current() {
        Some((Token::Literal(s), p)) => {
            match capture_filename(s.as_str()) {
                Some(v) => (v, p),
                None => {
                    let mut err_msg = string_of("Expected filename, got '");
                    err_msg.append(s.as_str());
                    err_msg.append("'");
                    return Err(Error::new(ErrMsg::ImportError(err_msg), Some(p)));
                },
            }
        },
        o => return Err(wrong_token(o, "file name")),
    };
    stream.next();

    Ok((filename, first_pos.until(last_pos)))
}

} // verus!
