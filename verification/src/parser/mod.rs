//! The parser: builds the program from the stream of the tokens of its files.
//!
//! Each function that reads a construct starts with the stream on the first
//! token of the construct, and ends on the first token after it.

pub mod grammar;
pub mod statics;
pub mod import;
pub mod types;
pub mod literal;
pub mod varcall;
pub mod expression;
pub mod list;
pub mod bracket;
pub mod operation;
pub mod object_construction;
pub mod functioncall;
pub mod statement;
pub mod flow_control;
pub mod function;
pub mod structure;
pub mod builtin;

use vstd::prelude::*;
use crate::errors::{Error, ErrMsg, ErrKind, Warning, ErrorView, WarningView, error_spec};
use crate::lexer::keyword::Keyword;
use crate::lexer::separator::Separator;
use crate::lexer::token::{Token, TokenView};
use crate::lexer::tokenstream::{TokenStream, entry_view, entry_at, in_file};
use crate::parser::grammar::{
    Tokens, Failure, advanced, wrong_token_spec, file_spec, definition_spec, expect_spec, equal_spec, semicolon_spec, semicolon_warning, module_check_spec,
};
use crate::position::{Position, PositionView};
use crate::sloth::expression::{Expression, ExpressionView, expr_pos};
use crate::sloth::program::{SlothProgram, SlothProgramView, imported_builtins};
use crate::sloth::statement::{Statement, StatementView, statement_pos};
use crate::text::string_of;
use crate::sloth::types::opt_view;
use crate::parser::builtin::parse_builtin;
use crate::parser::import::parse_import;
use crate::parser::statics::parse_static_expr;
use crate::parser::structure::parse_structure;
use crate::parser::function::parse_function;

verus! {

/// Where the parse of a file stopped: at its end, or at an `import`
/// statement, with the name of the file to parse before going on and the
/// position of the statement.
pub enum FileStep {
    Done,
    Import(String, Position),
}

/// The mathematical value of a [`FileStep`].
pub enum FileStepView {
    Done,
    Import(Seq<char>, PositionView),
}

impl View for FileStep {
    type V = FileStepView;

    open spec fn view(&self) -> FileStepView {
        match self {
            FileStep::Done => FileStepView::Done,
            FileStep::Import(f, p) => FileStepView::Import(f@, p@),
        }
    }
}

/// Whether the parser can read the stream: it holds no more tokens than
/// its vector, and all its tokens are in its file.
pub open spec fn parsable(s: TokenStream) -> bool {
    &&& s.wf()
    &&& 0 <= s.cursor()
    &&& s.items().len() <= usize::MAX
    &&& in_file(s.items(), s.file_name())
}

/// Whether the stream `b` holds the tokens of the stream `a`, which the
/// parser can still read; only the cursor may differ.
pub open spec fn kept(a: TokenStream, b: TokenStream) -> bool {
    &&& parsable(b)
    &&& b.items() == a.items()
    &&& b.file_name() == a.file_name()
}

/// Whether the program `b` is the program `a` with the warnings `ws`.
pub open spec fn warned(a: SlothProgramView, b: SlothProgramView, ws: Seq<WarningView>) -> bool {
    b == SlothProgramView { warnings: ws, ..a }
}

/// Whether `r`, the expression read from the stream `a` that became `b`,
/// is the result `spec` of the grammar: the expression and the index after
/// it, which lies past `a`'s cursor; the expression's position is in the
/// stream's file.
pub open spec fn parsed_expr(spec: Result<(ExpressionView, int), ErrorView>, r: Result<Expression, Error>, a: TokenStream, b: TokenStream) -> bool {
    match r {
        Ok(e) => spec == Ok::<(ExpressionView, int), ErrorView>((e@, b.cursor()))
            && advanced(a.items(), a.cursor(), b.cursor())
            && expr_pos(e@).filename == a.file_name(),
        Err(e) => spec == Err::<(ExpressionView, int), ErrorView>(e@),
    }
}

/// Whether `r`, the statement read from the stream `a` that became `b` by
/// a parse that took the program `pa` to `pb`, is the result `spec` of the
/// grammar: the statement, the index after it, which lies past `a`'s
/// cursor, and the warnings raised; only the warnings of the program
/// change. The statement's position is in the stream's file.
pub open spec fn parsed_stmt(
    spec: Result<(StatementView, int, Seq<WarningView>), Failure>,
    r: Result<Statement, Error>,
    a: TokenStream,
    b: TokenStream,
    pa: SlothProgramView,
    pb: SlothProgramView,
) -> bool {
    &&& warned(pa, pb, pb.warnings)
    &&& match r {
        Ok(st) => spec == Ok::<(StatementView, int, Seq<WarningView>), Failure>((st@, b.cursor(), pb.warnings))
            && advanced(a.items(), a.cursor(), b.cursor())
            && statement_pos(st@).filename == a.file_name(),
        Err(e) => spec == Err::<(StatementView, int, Seq<WarningView>), Failure>((e@, pb.warnings)),
    }
}

/// The view of a module prefix, if any: the module's name and position.
pub open spec fn module_view(m: Option<(String, Position)>) -> Option<(Seq<char>, PositionView)> {
    match m {
        Some((n, p)) => Some((n@, p@)),
        None => None,
    }
}

/// The error raised at the end of the file.
pub(crate) fn eof_error() -> (r: Error)
    ensures
        r@ == grammar::eof_error(),
{
    Error::new(ErrMsg::UnexpectedEOF(string_of("Unexpected end of file")), None)
}

/// The error raised when `given` is met where `expected` was expected: a
/// syntax error at the token, or the end-of-file error.
pub fn wrong_token(given: Option<(Token, Position)>, expected: &str) -> (r: Error)
    ensures
        r@ == wrong_token_spec(entry_view(given), expected@),
{
    match given {
        Some((t, p)) => {
            let kind = match t {
                Token::Keyword(..) => "keyword",
                Token::Separator(..) => "separator",
                Token::Identifier(..) => "identifier",
                Token::Operator(..) => "operator",
                Token::Literal(..) => "literal",
            };
            let mut msg = string_of("Expected ");
            msg.append(expected);
            msg.append(", got unexpected ");
            msg.append(kind);
            msg.append(" '");
            msg.append(t.original_string().as_str());
            msg.append("'");
            Error::new(ErrMsg::SyntaxError(msg), Some(p))
        },
        None => eof_error(),
    }
}

/// Requires the token `token` at the cursor: returns it with its position
/// and moves to the next token; the error when another token, or none,
/// is there.
pub fn expect_token(stream: &mut TokenStream, token: Token) -> (r: Result<(Token, Position), Error>)
    requires
        parsable(*old(stream)),
    ensures
        kept(*old(stream), *final(stream)),
        match r {
            Ok((t, p)) => t@ == token@ && expect_spec(old(stream).items(), old(stream).cursor(), token@)
                == Ok::<(PositionView, int), ErrorView>((p@, final(stream).cursor())),
            Err(e) => expect_spec(old(stream).items(), old(stream).cursor(), token@) == Err::<(PositionView, int), ErrorView>(e@)
                && *final(stream) == *old(stream),
        },
{
    match stream.current() {
        Some((t, p)) => {
            if t.same(&token) {
                stream.next();
                Ok((t, p))
            } else {
                let mut expected = string_of("'");
                expected.append(token.original_string().as_str());
                expected.append("'");
                Err(wrong_token(Some((t, p)), expected.as_str()))
            }
        },
        None => Err(eof_error()),
    }
}

/// Whether the token at the cursor is `token`; the error at the end of the
/// file. The cursor does not move.
pub fn current_equal(stream: &mut TokenStream, token: Token) -> (r: Result<bool, Error>)
    requires
        parsable(*old(stream)),
    ensures
        *final(stream) == *old(stream),
        match r {
            Ok(b) => equal_spec(old(stream).items(), old(stream).cursor(), token@) == Ok::<bool, ErrorView>(b),
            Err(e) => equal_spec(old(stream).items(), old(stream).cursor(), token@) == Err::<bool, ErrorView>(e@),
        },
{
    match stream.current() {
        Some((t, _)) => Ok(t.same(&token)),
        None => Err(eof_error()),
    }
}

/// A semicolon is expected at the cursor, after the element at
/// `statement_pos`: it is skipped when there; else the cursor does not
/// move and, when `warn`, a warning is added to the program.
pub fn check_semicolon(stream: &mut TokenStream, program: &mut SlothProgram, warn: bool, statement_pos: &Position) -> (r: Result<(), Error>)
    requires
        parsable(*old(stream)),
    ensures
        kept(*old(stream), *final(stream)),
        match r {
            Ok(()) => semicolon_spec(old(stream).items(), old(stream).cursor(), warn, statement_pos@, old(program)@.warnings)
                == Ok::<(int, Seq<WarningView>), Failure>((final(stream).cursor(), final(program)@.warnings))
                && warned(old(program)@, final(program)@, final(program)@.warnings),
            Err(e) => semicolon_spec(old(stream).items(), old(stream).cursor(), warn, statement_pos@, old(program)@.warnings)
                == Err::<(int, Seq<WarningView>), Failure>((e@, old(program)@.warnings))
                && *final(program) == *old(program) && *final(stream) == *old(stream),
        },
{
    match stream.current() {
        Some((Token::Separator(Separator::SemiColon), _)) => {
            stream.next();
            Ok(())
        },
        Some(..) => {
            if warn {
                let text = string_of("Use of a semicolon here is highly recommended");
                let w = Warning::new(text, Some(statement_pos.duplicate()));
                program.add_warning(w);
            }
            Ok(())
        },
        None => Err(eof_error()),
    }
}

/// A module prefix `module:` at the cursor, if the token after it is a
/// colon: the module's name and position, and the cursor moves past the
/// colon. A colon after another token than a name is an error.
pub fn module_check(stream: &mut TokenStream) -> (r: Result<Option<(String, Position)>, Error>)
    requires
        parsable(*old(stream)),
    ensures
        kept(*old(stream), *final(stream)),
        match r {
            Ok(m) => module_check_spec(old(stream).items(), old(stream).cursor()) == Ok::<(Option<(Seq<char>, PositionView)>, int), ErrorView>((
                module_view(m),
                final(stream).cursor(),
            )),
            Err(e) => module_check_spec(old(stream).items(), old(stream).cursor())
                == Err::<(Option<(Seq<char>, PositionView)>, int), ErrorView>(e@)
                && *final(stream) == *old(stream),
        },
{
    let cur = stream.current();
    if cur.is_none() {
        return Ok(None);
    }
    if let Some((Token::Separator(Separator::Colon), _)) = stream.peek(1) {
        let res = match cur {
            Some((Token::Identifier(n), p)) => Some((n, p)),
            o => return Err(wrong_token(o, "module")),
        };
        // go over the colon
        stream.skip(2);
        Ok(res)
    } else {
        Ok(None)
    }
}

/// Parses the definition at the cursor, which starts with the keyword
/// `keyword` at `p`, and adds it to the program: an import of built-ins, a
/// static expression, a structure or a function; a structure or a
/// function that replaces another raises a warning. Any other keyword is
/// an error.
pub(crate) fn parse_definition(stream: &mut TokenStream, program: &mut SlothProgram, warning: bool, module_name: &Option<String>, keyword: Keyword, p: Position) -> (r: Result<(), Error>)
    requires
        parsable(*old(stream)),
        keyword != Keyword::Import,
    ensures
        kept(*old(stream), *final(stream)),
        match r {
            Ok(()) => definition_spec(old(stream).items(), old(stream).cursor(), keyword, p@, opt_view(*module_name), warning, old(program)@)
                == Ok::<(int, SlothProgramView), (ErrorView, SlothProgramView)>((final(stream).cursor(), final(program)@))
                && advanced(old(stream).items(), old(stream).cursor(), final(stream).cursor()),
            Err(e) => definition_spec(old(stream).items(), old(stream).cursor(), keyword, p@, opt_view(*module_name), warning, old(program)@)
                == Err::<(int, SlothProgramView), (ErrorView, SlothProgramView)>((e@, final(program)@)),
        },
{
    proof {
        reveal(definition_spec);
    }
    match keyword {
        Keyword::Builtin => {
            let import = parse_builtin(stream, program, warning)?;
            program.add_import(import);
        },
        Keyword::Static => {
            parse_static_expr(stream, program, warning)?;
        },
        Keyword::Structure => {
            let structure = parse_structure(stream, program, module_name, warning)?;
            // warn when the structure is overwritten
            match program.push_struct(structure) {
                None => {},
                Some(w) => program.add_warning(Warning::new(w, None)),
            }
        },
        Keyword::Define => {
            let function = parse_function(stream, program, module_name, warning)?;
            // warn when the function is overwritten
            match program.push_function(function) {
                None => {},
                Some(w) => program.add_warning(Warning::new(w, None)),
            }
        },
        t => {
            let mut error_msg = string_of(
                "Expected 'builtin', 'import', 'static', 'structure' or 'define', got unexpected keyword '",
            );
            error_msg.append(t.to_string().as_str());
            error_msg.append("'");
            return Err(Error::new(ErrMsg::SyntaxError(error_msg), Some(p)));
        },
    }
    Ok(())
}

/// Parses the definitions of a file from the cursor on, adding them to
/// the program: imports of built-ins, static expressions, structures
/// (in the module `module_name`; none for the main file) and functions.
/// It stops at the end of the file, or after an `import` statement, whose
/// file must be parsed, and the semicolon after the statement checked (see
/// `check_semicolon`), before the rest of this file.
pub fn parse_file(stream: &mut TokenStream, program: &mut SlothProgram, warning: bool, module_name: &Option<String>) -> (r: Result<FileStep, Error>)
    requires
        parsable(*old(stream)),
    ensures
        kept(*old(stream), *final(stream)),
        match r {
            Ok(step) => file_spec(old(stream).items(), old(stream).cursor(), opt_view(*module_name), warning, old(program)@)
                == Ok::<(FileStepView, int, SlothProgramView), (ErrorView, SlothProgramView)>((step@, final(stream).cursor(), final(program)@)),
            Err(e) => file_spec(old(stream).items(), old(stream).cursor(), opt_view(*module_name), warning, old(program)@)
                == Err::<(FileStepView, int, SlothProgramView), (ErrorView, SlothProgramView)>((e@, final(program)@)),
        },
{
    let ghost toks = stream.items();
    let ghost m = opt_view(*module_name);

    // each definition, from its first token
    loop
        invariant
            kept(*old(stream), *stream),
            toks == old(stream).items(),
            m == opt_view(*module_name),
            file_spec(toks, old(stream).cursor(), m, warning, old(program)@)
                == file_spec(toks, stream.cursor(), m, warning, program@),
        decreases toks.len() - stream.cursor(),
    {
        match stream.current() {
            None => return Ok(FileStep::Done),
            Some((Token::Keyword(n), p)) => {
                if n == Keyword::Import {
                    let (filename, pos) = parse_import(stream)?;
                    return Ok(FileStep::Import(filename, pos));
                }
                parse_definition(stream, program, warning, module_name, n, p)?;
            },
            o => return Err(wrong_token(o, "keyword")),
        }
    }
}

/// The stem of the file name of a path: its last component without its
/// extension (`std::path::Path::file_stem` of std, as text), if it has one.
pub uninterp spec fn file_stem(path: Seq<char>) -> Option<Seq<char>>;

/// `std::path::Path::file_stem` of std on the path `path`, as text; the
/// contract names its result, which depends on `path` alone, without
/// writing out how std splits paths.
#[verifier::external_body]
fn path_stem(path: &str) -> (r: Option<String>)
    ensures
        match r {
            Some(s) => file_stem(path@) == Some(s@),
            None => file_stem(path@) is None,
        },
{
    match std::path::Path::new(path).file_stem() {
        Some(stem) => match stem.to_str() {
            Some(s) => Some(s.to_string()),
            None => None,
        },
        None => None,
    }
}

/// The program that the main file `filename` starts: named after the stem
/// of the file's name, with nothing defined yet. None when the path has no
/// file name.
pub fn program_for(filename: &str, import_default_builtins: bool) -> (r: Option<SlothProgram>)
    ensures
        match r {
            Some(p) => file_stem(filename@) matches Some(n) && p@ == (SlothProgramView {
                name: n,
                import_default_builtins,
                functions: seq![],
                structures: seq![],
                statics: seq![],
                imports: seq![],
                warnings: seq![],
            }),
            None => file_stem(filename@) is None,
        },
{
    match path_stem(filename) {
        Some(name) => Some(SlothProgram::new(name, import_default_builtins)),
        None => None,
    }
}

/// The module of the definitions of the file `filename`: none for the
/// main file, else the stem of the file's name. None when the path of an
/// imported file has no file name.
pub fn module_name_for(filename: &str, is_main: bool) -> (r: Option<Option<String>>)
    ensures
        match r {
            Some(m) => if is_main { m is None } else { file_stem(filename@) matches Some(n) && opt_view(m) == Some(n) },
            None => !is_main && file_stem(filename@) is None,
        },
{
    if is_main {
        Some(None)
    } else {
        match path_stem(filename) {
            Some(name) => Some(Some(name)),
            None => None,
        }
    }
}

/// The last step of building a program: its imported built-ins are
/// brought; the message of the first fault is an import error without a
/// position.
pub fn check_builtins(program: &SlothProgram) -> (r: Result<(), Error>)
    ensures
        match imported_builtins(program@.imports) {
            Ok(_) => r is Ok,
            Err(m) => r matches Err(e) && e@ == error_spec((ErrKind::ImportError, m), None),
        },
{
    match program.import_builtins() {
        Ok(_) => Ok(()),
        Err(e) => Err(Error::new(ErrMsg::ImportError(e), None)),
    }
}

} // verus!
