//! The grammar of the language: what each parsing function reads from a
//! sequence of tokens, and what it builds.
//!
//! Each function here takes the tokens of a file and the index of the token
//! where a construct starts; it gives what the construct denotes and the
//! index of the first token after it, or the error that stops the parse.

use vstd::prelude::*;
use crate::builtins::{BuiltInImportView, import_check, lemma_valid_imports_collapse};
use crate::errors::{ErrKind, ErrorView, WarningView, error_spec};
use crate::lexer::keyword::Keyword;
use crate::lexer::operator::Operator;
use crate::lexer::separator::Separator;
use crate::lexer::token::{TokenView, token_text};
use crate::position::{PositionView, span};
use crate::sloth::expression::{ExpressionView, expr_pos};
use crate::sloth::function::{FunctionSignatureView, CustomFunctionView};
use crate::sloth::statement::{StatementView, statement_pos};
use crate::sloth::structure::{StructSignatureView, CustomDefinitionView};
use crate::sloth::types::TypeView;
use crate::lexer::tokenstream::entry_at;
use crate::parser::FileStepView;
use crate::parser::statics::uppercase;
use crate::parser::import::quoted_name;
use crate::sloth::program::{SlothProgramView, first_unknown_module, imported_builtins, has_static, structures_with, replaced_structure, functions_with, replaced_function};

verus! {

/// The tokens of a file, each with its position.
pub type Tokens = Seq<(TokenView, PositionView)>;

/// The word that names the kind of a token in error messages.
pub open spec fn kind_word(t: TokenView) -> Seq<char> {
    match t {
        TokenView::Keyword(_) => "keyword"@,
        TokenView::Separator(_) => "separator"@,
        TokenView::Identifier(_) => "identifier"@,
        TokenView::Operator(_) => "operator"@,
        TokenView::Literal(_) => "literal"@,
    }
}

/// The error raised at the end of the file.
pub open spec fn eof_error() -> ErrorView {
    error_spec((ErrKind::UnexpectedEOF, "Unexpected end of file"@), None)
}

/// The error raised when `given` is met where `expected` was expected.
pub open spec fn wrong_token_spec(given: Option<(TokenView, PositionView)>, expected: Seq<char>) -> ErrorView {
    match given {
        Some((t, p)) => error_spec(
            (ErrKind::SyntaxError, "Expected "@ + expected + ", got unexpected "@ + kind_word(t) + " '"@ + token_text(t) + "'"@),
            Some(p),
        ),
        None => eof_error(),
    }
}

/// The token `t` is required at index `i`: its position and the next index.
pub open spec fn expect_spec(toks: Tokens, i: int, t: TokenView) -> Result<(PositionView, int), ErrorView> {
    match entry_at(toks, i) {
        Some((t2, p)) => if t2 == t {
            Ok((p, i + 1))
        } else {
            Err(wrong_token_spec(Some((t2, p)), "'"@ + token_text(t) + "'"@))
        },
        None => Err(eof_error()),
    }
}

/// Whether the token at index `i` is `t`; the error at the end of the file.
pub open spec fn equal_spec(toks: Tokens, i: int, t: TokenView) -> Result<bool, ErrorView> {
    match entry_at(toks, i) {
        Some((t2, _)) => Ok(t2 == t),
        None => Err(eof_error()),
    }
}

/// Where a parse that raises warnings failed: the error, and the warnings
/// raised until then.
pub type Failure = (ErrorView, Seq<WarningView>);

/// The text of the warning about a missing semicolon.
pub open spec fn semicolon_warning() -> Seq<char> {
    "Use of a semicolon here is highly recommended"@
}

/// A semicolon is expected at index `i`, after the element at `pos`: it is
/// skipped when there; else, when `warn`, a warning is added.
pub open spec fn semicolon_spec(toks: Tokens, i: int, warn: bool, pos: PositionView, ws: Seq<WarningView>) -> Result<(int, Seq<WarningView>), Failure> {
    match entry_at(toks, i) {
        Some((TokenView::Separator(Separator::SemiColon), _)) => Ok((i + 1, ws)),
        Some(_) => Ok((i, if warn { ws.push(WarningView { text: semicolon_warning(), position: Some(pos) }) } else { ws })),
        None => Err((eof_error(), ws)),
    }
}

/// A module prefix `module:` at index `i`, if the token after it is a colon.
pub open spec fn module_check_spec(toks: Tokens, i: int) -> Result<(Option<(Seq<char>, PositionView)>, int), ErrorView> {
    match entry_at(toks, i + 1) {
        Some((TokenView::Separator(Separator::Colon), _)) => match entry_at(toks, i) {
            Some((TokenView::Identifier(n), p)) => Ok((Some((n, p)), i + 2)),
            o => Err(wrong_token_spec(o, "module"@)),
        },
        _ => Ok((None, i)),
    }
}

/// A type at index `i`: `any`, `num`, `bool`, `string`, `list[T]`, or the
/// name of a structure. Gives the type, its position and the next index.
pub open spec fn type_spec(toks: Tokens, i: int) -> Result<(TypeView, PositionView, int), ErrorView>
    decreases toks.len() - i,
{
    match entry_at(toks, i) {
        Some((TokenView::Identifier(n), p)) => {
            if n == "any"@ {
                Ok((TypeView::Any, span(p, p), i + 1))
            } else if n == "num"@ {
                Ok((TypeView::Number, span(p, p), i + 1))
            } else if n == "bool"@ {
                Ok((TypeView::Boolean, span(p, p), i + 1))
            } else if n == "string"@ {
                Ok((TypeView::String, span(p, p), i + 1))
            } else if n == "list"@ {
                match entry_at(toks, i + 1) {
                    Some((TokenView::Separator(Separator::OpenSquareBracket), _)) => {
                        match type_spec(toks, i + 2) {
                            Err(e) => Err(e),
                            Ok((inner, _, j)) => match entry_at(toks, j) {
                                Some((TokenView::Separator(Separator::CloseSquareBracket), q)) =>
                                    Ok((TypeView::List(Box::new(inner)), span(p, q), j + 1)),
                                o => Err(wrong_token_spec(o, "']'"@)),
                            },
                        }
                    },
                    o => Err(wrong_token_spec(o, "'['"@)),
                }
            } else {
                Ok((TypeView::Object(n), span(p, p), i + 1))
            }
        },
        o => Err(wrong_token_spec(o, "type"@)),
    }
}

/// The signature of the function that implements an operator.
pub open spec fn operator_signature(o: Operator) -> FunctionSignatureView {
    FunctionSignatureView {
        module: None,
        name: "@"@ + o.name(),
        owner_type: None,
        input_types: Some(seq![]),
        output_type: Some(TypeView::Any),
    }
}

/// Whether an operator takes one operand only.
pub open spec fn one_operand(o: Operator) -> bool {
    o == Operator::Inv || o == Operator::Len
}

/// A literal at index `i`, kept as written.
pub open spec fn literal_spec(toks: Tokens, i: int) -> Result<(ExpressionView, int), ErrorView> {
    match entry_at(toks, i) {
        Some((TokenView::Literal(s), p)) => Ok((ExpressionView::Literal(s, p), i + 1)),
        o => Err(wrong_token_spec(o, "literal"@)),
    }
}

/// A variable at index `i`, or a field of `first` when it is given.
pub open spec fn variable_spec(toks: Tokens, i: int, first: Option<Box<ExpressionView>>) -> Result<(ExpressionView, int), ErrorView> {
    match entry_at(toks, i) {
        Some((TokenView::Identifier(n), p)) => Ok((ExpressionView::VariableAccess(first, n, p), i + 1)),
        o => Err(wrong_token_spec(o, "variable name"@)),
    }
}

/// Whether a construct read from index `i` ended at index `j`: it read at
/// least one token, and no token past the end. Every construct does; the
/// definitions below test it before going on from `j`, which keeps them
/// well-founded.
pub open spec fn advanced(toks: Tokens, i: int, j: int) -> bool {
    i < j <= toks.len()
}

/// Expressions from index `i` until the separator `close`, which is not
/// read; `acc` holds those already read.
pub open spec fn items_spec(toks: Tokens, i: int, close: Separator, acc: Seq<ExpressionView>) -> Result<(Seq<ExpressionView>, int), ErrorView>
    decreases toks.len() - i, 4int,
{
    match equal_spec(toks, i, TokenView::Separator(close)) {
        Err(e) => Err(e),
        Ok(true) => Ok((acc, i)),
        Ok(false) => match expression_spec(toks, i, None) {
            Err(e) => Err(e),
            Ok((e, j)) => if !advanced(toks, i, j) {
                Err(eof_error())
            } else {
                items_spec(toks, j, close, acc.push(e))
            },
        },
    }
}

/// A list `[e1 e2 ...]` at index `i`.
pub open spec fn list_spec(toks: Tokens, i: int) -> Result<(ExpressionView, int), ErrorView>
    decreases toks.len() - i, 1int,
{
    match expect_spec(toks, i, TokenView::Separator(Separator::OpenSquareBracket)) {
        Err(e) => Err(e),
        Ok((sp, j)) => match items_spec(toks, j, Separator::CloseSquareBracket, seq![]) {
            Err(e) => Err(e),
            Ok((xs, k)) => match expect_spec(toks, k, TokenView::Separator(Separator::CloseSquareBracket)) {
                Err(e) => Err(e),
                Ok((ep, l)) => Ok((ExpressionView::ListInit(xs, span(sp, ep)), l)),
            },
        },
    }
}

/// An access `[index]` at index `i`, to an element of `first`.
pub open spec fn bracket_spec(toks: Tokens, i: int, first: ExpressionView) -> Result<(ExpressionView, int), ErrorView>
    decreases toks.len() - i, 1int,
{
    match expect_spec(toks, i, TokenView::Separator(Separator::OpenSquareBracket)) {
        Err(e) => Err(e),
        Ok((fp, j)) => match expression_spec(toks, j, None) {
            Err(e) => Err(e),
            Ok((index, k)) => match expect_spec(toks, k, TokenView::Separator(Separator::CloseSquareBracket)) {
                Err(e) => Err(e),
                Ok((ep, l)) => Ok((ExpressionView::BracketAccess(Box::new(first), Box::new(index), span(fp, ep)), l)),
            },
        },
    }
}

/// An operation at index `i`, in Polish notation: an operator, then its
/// operand, or its two operands. It is a call of the function that
/// implements the operator.
pub open spec fn operation_spec(toks: Tokens, i: int) -> Result<(ExpressionView, int), ErrorView>
    decreases toks.len() - i, 1int,
{
    match entry_at(toks, i) {
        Some((TokenView::Operator(o), p)) => match expression_spec(toks, i + 1, None) {
            Err(e) => Err(e),
            Ok((lhs, j)) => if one_operand(o) {
                Ok((ExpressionView::FunctionCall(None, operator_signature(o), seq![lhs], span(p, expr_pos(lhs))), j))
            } else if !advanced(toks, i, j) {
                Err(eof_error())
            } else {
                match expression_spec(toks, j, None) {
                    Err(e) => Err(e),
                    Ok((rhs, k)) => Ok((ExpressionView::FunctionCall(None, operator_signature(o), seq![lhs, rhs], span(p, expr_pos(rhs))), k)),
                }
            },
        },
        o => Err(wrong_token_spec(o, "operator"@)),
    }
}

/// The construction `new module:S(e1 e2 ...)` of a structure at index `i`.
pub open spec fn object_spec(toks: Tokens, i: int) -> Result<(ExpressionView, int), ErrorView>
    decreases toks.len() - i, 1int,
{
    match expect_spec(toks, i, TokenView::Keyword(Keyword::New)) {
        Err(e) => Err(e),
        Ok((fp, j)) => match module_check_spec(toks, j) {
            Err(e) => Err(e),
            Ok((m, k)) => match entry_at(toks, k) {
                Some((TokenView::Identifier(name), _)) => match expect_spec(toks, k + 1, TokenView::Separator(Separator::OpenParenthesis)) {
                    Err(e) => Err(e),
                    Ok((_, l)) => match items_spec(toks, l, Separator::CloseParenthesis, seq![]) {
                        Err(e) => Err(e),
                        Ok((xs, q)) => match expect_spec(toks, q, TokenView::Separator(Separator::CloseParenthesis)) {
                            Err(e) => Err(e),
                            Ok((ep, r)) => Ok((ExpressionView::ObjectConstruction(
                                StructSignatureView { module: prefix_module(m), name },
                                xs,
                                span(fp, ep),
                            ), r)),
                        },
                    },
                },
                o => Err(wrong_token_spec(o, "structure"@)),
            },
        },
    }
}

/// The name of the module of a module prefix, if any.
pub open spec fn prefix_module(m: Option<(Seq<char>, PositionView)>) -> Option<Seq<char>> {
    match m {
        Some((n, _)) => Some(n),
        None => None,
    }
}

/// A function call `module:f(e1 e2 ...)` at index `i`, a method call on
/// `first` when it is given.
pub open spec fn call_spec(toks: Tokens, i: int, first: Option<Box<ExpressionView>>) -> Result<(ExpressionView, int), ErrorView>
    decreases toks.len() - i, 1int,
{
    match module_check_spec(toks, i) {
        Err(e) => Err(e),
        Ok((m, j)) => match entry_at(toks, j) {
            Some((TokenView::Identifier(n), np)) => {
                let fp = match m { Some((_, mp)) => mp, None => np };
                match expect_spec(toks, j + 1, TokenView::Separator(Separator::OpenParenthesis)) {
                    Err(e) => Err(e),
                    Ok((_, k)) => match items_spec(toks, k, Separator::CloseParenthesis, seq![]) {
                        Err(e) => Err(e),
                        Ok((args, l)) => match expect_spec(toks, l, TokenView::Separator(Separator::CloseParenthesis)) {
                            Err(e) => Err(e),
                            Ok((ep, q)) => Ok((ExpressionView::FunctionCall(
                                first,
                                FunctionSignatureView {
                                    module: prefix_module(m),
                                    name: n,
                                    owner_type: None,
                                    input_types: None,
                                    output_type: None,
                                },
                                args,
                                span(fp, ep),
                            ), q)),
                        },
                    },
                }
            },
            o => Err(wrong_token_spec(o, "function"@)),
        },
    }
}

/// The first part of an expression at index `i`, chosen by its first token.
pub open spec fn primary_spec(toks: Tokens, i: int, first: Option<Box<ExpressionView>>) -> Result<(ExpressionView, int), ErrorView>
    decreases toks.len() - i, 2int,
{
    match entry_at(toks, i) {
        Some((TokenView::Literal(_), _)) => literal_spec(toks, i),
        Some((TokenView::Separator(Separator::OpenSquareBracket), _)) => match first {
            Some(e) => bracket_spec(toks, i, *e),
            None => list_spec(toks, i),
        },
        Some((TokenView::Operator(_), _)) => operation_spec(toks, i),
        Some((TokenView::Keyword(Keyword::New), _)) => object_spec(toks, i),
        Some((TokenView::Identifier(n), p)) => match entry_at(toks, i + 1) {
            Some((TokenView::Separator(Separator::OpenParenthesis), _)) => call_spec(toks, i, first),
            Some((TokenView::Separator(Separator::Colon), _)) => call_spec(toks, i, first),
            _ => variable_spec(toks, i, first),
        },
        o => Err(wrong_token_spec(o, "expression"@)),
    }
}

/// An expression at index `i`; `first` is the expression before a period
/// or a bracket, whose field, method or element this one reads.
pub open spec fn expression_spec(toks: Tokens, i: int, first: Option<Box<ExpressionView>>) -> Result<(ExpressionView, int), ErrorView>
    decreases toks.len() - i, 3int,
{
    match primary_spec(toks, i, first) {
        Err(e) => Err(e),
        Ok((e, j)) => if !advanced(toks, i, j) {
            Err(eof_error())
        } else {
            match entry_at(toks, j) {
                Some((TokenView::Separator(Separator::Period), _)) => expression_spec(toks, j + 1, Some(Box::new(e))),
                Some((TokenView::Separator(Separator::OpenSquareBracket), _)) => expression_spec(toks, j, Some(Box::new(e))),
                _ => Ok((e, j)),
            }
        },
    }
}

/// A statement at index `i`: an assignment `target = source`, an
/// expression evaluated for its effect, an `if` or a `while`; then a
/// semicolon (see `semicolon_spec`). `ws` holds the warnings raised before.
pub open spec fn statement_spec(toks: Tokens, i: int, warn: bool, ws: Seq<WarningView>) -> Result<(StatementView, int, Seq<WarningView>), Failure>
    decreases toks.len() - i, 2int,
{
    let read: Result<(StatementView, int, Seq<WarningView>), Failure> = match entry_at(toks, i) {
        Some((TokenView::Identifier(_), _)) => match expression_spec(toks, i, None) {
            Err(e) => Err((e, ws)),
            Ok((target, j)) => match equal_spec(toks, j, TokenView::Keyword(Keyword::Equal)) {
                Err(e) => Err((e, ws)),
                Ok(true) => match expression_spec(toks, j + 1, None) {
                    Err(e) => Err((e, ws)),
                    Ok((source, k)) => Ok((
                        StatementView::Assignment(Box::new(target), Box::new(source), span(expr_pos(target), expr_pos(source))),
                        k,
                        ws,
                    )),
                },
                Ok(false) => Ok((StatementView::ExpressionCall(Box::new(target), expr_pos(target)), j, ws)),
            },
        },
        Some((TokenView::Keyword(Keyword::If), _)) => flow_spec(toks, i, Keyword::If, warn, ws),
        Some((TokenView::Keyword(Keyword::While), _)) => flow_spec(toks, i, Keyword::While, warn, ws),
        o => Err((wrong_token_spec(o, "statement"@), ws)),
    };
    match read {
        Err(f) => Err(f),
        Ok((st, j, ws1)) => match semicolon_spec(toks, j, warn, statement_pos(st), ws1) {
            Err(f) => Err(f),
            Ok((k, ws2)) => Ok((st, k, ws2)),
        },
    }
}

/// Statements from index `i` until a closing bracket, which is not read;
/// `acc` holds those already read.
pub open spec fn block_spec(toks: Tokens, i: int, warn: bool, acc: Seq<StatementView>, ws: Seq<WarningView>) -> Result<(Seq<StatementView>, int, Seq<WarningView>), Failure>
    decreases toks.len() - i, 3int,
{
    match equal_spec(toks, i, TokenView::Separator(Separator::CloseBracket)) {
        Err(e) => Err((e, ws)),
        Ok(true) => Ok((acc, i, ws)),
        Ok(false) => match statement_spec(toks, i, warn, ws) {
            Err(f) => Err(f),
            Ok((st, j, ws1)) => if !advanced(toks, i, j) {
                Err((eof_error(), ws1))
            } else {
                block_spec(toks, j, warn, acc.push(st), ws1)
            },
        },
    }
}

/// `if condition { statements }` or `while condition { statements }` at
/// index `i`, as the keyword `kw` says.
pub open spec fn flow_spec(toks: Tokens, i: int, kw: Keyword, warn: bool, ws: Seq<WarningView>) -> Result<(StatementView, int, Seq<WarningView>), Failure>
    decreases toks.len() - i, 1int,
{
    match expect_spec(toks, i, TokenView::Keyword(kw)) {
        Err(e) => Err((e, ws)),
        Ok((fp, j)) => match expression_spec(toks, j, None) {
            Err(e) => Err((e, ws)),
            Ok((cond, k)) => match expect_spec(toks, k, TokenView::Separator(Separator::OpenBracket)) {
                Err(e) => Err((e, ws)),
                Ok((_, l)) => if !advanced(toks, i, l) {
                    Err((eof_error(), ws))
                } else {
                    match block_spec(toks, l, warn, seq![], ws) {
                        Err(f) => Err(f),
                        Ok((sts, m, ws1)) => match expect_spec(toks, m, TokenView::Separator(Separator::CloseBracket)) {
                            Err(e) => Err((e, ws1)),
                            Ok((lp, n)) => Ok((
                                if kw == Keyword::While {
                                    StatementView::While(Box::new(cond), sts, span(fp, lp))
                                } else {
                                    StatementView::If(Box::new(cond), sts, span(fp, lp))
                                },
                                n,
                                ws1,
                            )),
                        },
                    }
                },
            },
        },
    }
}

/// The input types of a function from index `i` until `->`, which is not
/// read: each a type, after a `~` when the argument is passed by
/// reference. `acc` holds those already read.
pub open spec fn inputs_spec(toks: Tokens, i: int, acc: Seq<(TypeView, bool)>) -> Result<(Seq<(TypeView, bool)>, int), ErrorView>
    decreases toks.len() - i,
{
    match equal_spec(toks, i, TokenView::Keyword(Keyword::LeftArrow)) {
        Err(e) => Err(e),
        Ok(true) => Ok((acc, i)),
        Ok(false) => match equal_spec(toks, i, TokenView::Separator(Separator::Tilde)) {
            Err(e) => Err(e),
            Ok(by_ref) => match type_spec(toks, if by_ref { i + 1 } else { i }) {
                Err(e) => Err(e),
                Ok((t, _, j)) => if !advanced(toks, i, j) {
                    Err(eof_error())
                } else {
                    inputs_spec(toks, j, acc.push((t, by_ref)))
                },
            },
        },
    }
}

/// The definition `define f for T: T1 T2 -> T { statements }` of a
/// function at index `i`, in the module `module`; the owner type `for T`
/// makes it a method.
pub open spec fn function_spec(toks: Tokens, i: int, module: Option<Seq<char>>, warn: bool, ws: Seq<WarningView>) -> Result<(CustomFunctionView, int, Seq<WarningView>), Failure> {
    match expect_spec(toks, i, TokenView::Keyword(Keyword::Define)) {
        Err(e) => Err((e, ws)),
        Ok((_, j)) => match entry_at(toks, j) {
            Some((TokenView::Identifier(name), _)) => {
                let owner: Result<(Option<TypeView>, int), ErrorView> = match entry_at(toks, j + 1) {
                    Some((TokenView::Keyword(Keyword::For), _)) => match type_spec(toks, j + 2) {
                        Err(e) => Err(e),
                        Ok((t, _, k)) => Ok((Some(t), k)),
                    },
                    _ => Ok((None, j + 1)),
                };
                match owner {
                    Err(e) => Err((e, ws)),
                    Ok((owner_type, k)) => match expect_spec(toks, k, TokenView::Separator(Separator::Colon)) {
                        Err(e) => Err((e, ws)),
                        Ok((_, l)) => match inputs_spec(toks, l, seq![]) {
                            Err(e) => Err((e, ws)),
                            Ok((inputs, m)) => match expect_spec(toks, m, TokenView::Keyword(Keyword::LeftArrow)) {
                                Err(e) => Err((e, ws)),
                                Ok((_, n)) => match type_spec(toks, n) {
                                    Err(e) => Err((e, ws)),
                                    Ok((output, _, q)) => match expect_spec(toks, q, TokenView::Separator(Separator::OpenBracket)) {
                                        Err(e) => Err((e, ws)),
                                        Ok((_, r)) => match block_spec(toks, r, warn, seq![], ws) {
                                            Err(f) => Err(f),
                                            Ok((sts, u, ws1)) => match expect_spec(toks, u, TokenView::Separator(Separator::CloseBracket)) {
                                                Err(e) => Err((e, ws1)),
                                                Ok((_, v)) => Ok((
                                                    CustomFunctionView {
                                                        signature: FunctionSignatureView {
                                                            module,
                                                            name,
                                                            owner_type,
                                                            input_types: Some(inputs),
                                                            output_type: Some(output),
                                                        },
                                                        instructions: sts,
                                                    },
                                                    v,
                                                    ws1,
                                                )),
                                            },
                                        },
                                    },
                                },
                            },
                        },
                    },
                }
            },
            o => Err((wrong_token_spec(o, "function"@), ws)),
        },
    }
}

/// The fields of a structure from index `i` until a closing bracket,
/// which is not read: each a name, a colon, a type, and a semicolon (see
/// `semicolon_spec`, here about the span from `first` to the type).
pub open spec fn fields_spec(toks: Tokens, i: int, first: PositionView, warn: bool, acc: Seq<(Seq<char>, TypeView)>, ws: Seq<WarningView>) -> Result<(Seq<(Seq<char>, TypeView)>, int, Seq<WarningView>), Failure>
    decreases toks.len() - i,
{
    match equal_spec(toks, i, TokenView::Separator(Separator::CloseBracket)) {
        Err(e) => Err((e, ws)),
        Ok(true) => Ok((acc, i, ws)),
        Ok(false) => match entry_at(toks, i) {
            Some((TokenView::Identifier(f), _)) => match expect_spec(toks, i + 1, TokenView::Separator(Separator::Colon)) {
                Err(e) => Err((e, ws)),
                Ok((_, j)) => match type_spec(toks, j) {
                    Err(e) => Err((e, ws)),
                    Ok((t, tp, k)) => match semicolon_spec(toks, k, warn, span(first, tp), ws) {
                        Err(fl) => Err(fl),
                        Ok((l, ws1)) => if !advanced(toks, i, l) {
                            Err((eof_error(), ws1))
                        } else {
                            fields_spec(toks, l, first, warn, acc.push((f, t)), ws1)
                        },
                    },
                },
            },
            o => Err((wrong_token_spec(o, "field name or '}}'"@), ws)),
        },
    }
}

/// The definition `structure S { field: T; ... }` of a structure at index
/// `i`, in the module `module`.
pub open spec fn structure_spec(toks: Tokens, i: int, module: Option<Seq<char>>, warn: bool, ws: Seq<WarningView>) -> Result<(CustomDefinitionView, int, Seq<WarningView>), Failure> {
    match entry_at(toks, i + 1) {
        Some((TokenView::Identifier(name), first)) => match entry_at(toks, i + 2) {
            Some((TokenView::Separator(Separator::OpenBracket), _)) => match fields_spec(toks, i + 3, first, warn, seq![], ws) {
                Err(f) => Err(f),
                Ok((fields, j, ws1)) => Ok((
                    CustomDefinitionView { signature: StructSignatureView { module, name }, fields },
                    j + 1,
                    ws1,
                )),
            },
            o => Err((wrong_token_spec(o, "'{{'"@), ws)),
        },
        o => Err((wrong_token_spec(o, "structure name"@), ws)),
    }
}

/// The statement `builtin module;` or `builtin module:name;` at index
/// `i`: the import it asks for, once checked (see `import_check`).
pub open spec fn builtin_spec(toks: Tokens, i: int, warn: bool, ws: Seq<WarningView>) -> Result<(BuiltInImportView, int, Seq<WarningView>), Failure> {
    match expect_spec(toks, i, TokenView::Keyword(Keyword::Builtin)) {
        Err(e) => Err((e, ws)),
        Ok((p0, j)) => match entry_at(toks, j) {
            Some((TokenView::Identifier(module), p1)) => {
                let pos1 = span(p0, p1);
                let named: Result<(Option<Seq<Seq<char>>>, PositionView, int), ErrorView> =
                    match equal_spec(toks, j + 1, TokenView::Separator(Separator::Colon)) {
                        Err(e) => Err(e),
                        Ok(true) => match entry_at(toks, j + 2) {
                            Some((TokenView::Identifier(b), p2)) => Ok((Some(seq![b]), span(pos1, p2), j + 3)),
                            o => Err(wrong_token_spec(o, "function or structure name"@)),
                        },
                        Ok(false) => Ok((None, pos1, j + 1)),
                    };
                match named {
                    Err(e) => Err((e, ws)),
                    Ok((builtins, pos, k)) => match semicolon_spec(toks, k, warn, pos, ws) {
                        Err(f) => Err(f),
                        Ok((l, ws1)) => {
                            let imp = BuiltInImportView { module, builtins };
                            match import_check(imp) {
                                Ok(()) => Ok((imp, l, ws1)),
                                Err(m) => Err((error_spec((ErrKind::ImportError, m), Some(pos)), ws1)),
                            }
                        },
                    },
                }
            },
            o => Err((wrong_token_spec(o, "module"@), ws)),
        },
    }
}

/// The warning about a static expression whose name is not in capitals;
/// `upper` is the name in capitals.
pub open spec fn static_warning_text(upper: Seq<char>) -> Seq<char> {
    "It is recommended to set in full uppercase the name of static expressions ('"@ + upper + "')"@
}

/// The definition `static NAME = expression;` of a static expression at
/// index `i`, added to the program `prog`. A name that is not in capitals
/// raises a warning; a name already defined is an error.
pub open spec fn static_spec(toks: Tokens, i: int, warn: bool, prog: SlothProgramView) -> Result<(int, SlothProgramView), (ErrorView, SlothProgramView)> {
    match expect_spec(toks, i, TokenView::Keyword(Keyword::Static)) {
        Err(e) => Err((e, prog)),
        Ok((fp, j)) => match entry_at(toks, j) {
            Some((TokenView::Identifier(name), p)) => {
                let ws = if warn && uppercase(name) != name {
                    prog.warnings.push(WarningView { text: static_warning_text(uppercase(name)), position: Some(p) })
                } else {
                    prog.warnings
                };
                let at = SlothProgramView { warnings: ws, ..prog };
                match expect_spec(toks, j + 1, TokenView::Keyword(Keyword::Equal)) {
                    Err(e) => Err((e, at)),
                    Ok((_, k)) => match expression_spec(toks, k, None) {
                        Err(e) => Err((e, at)),
                        Ok((expr, l)) => {
                            let full = span(fp, expr_pos(expr));
                            match semicolon_spec(toks, l, warn, full, ws) {
                                Err((e, ws1)) => Err((e, SlothProgramView { warnings: ws1, ..prog })),
                                Ok((m, ws1)) => if has_static(prog.statics, name) {
                                    Err((
                                        error_spec(
                                            (ErrKind::RuntimeError, "The static expression '"@ + name + "' is already defined"@),
                                            Some(full),
                                        ),
                                        SlothProgramView { warnings: ws1, ..prog },
                                    ))
                                } else {
                                    Ok((m, SlothProgramView { statics: prog.statics.push((name, expr)), warnings: ws1, ..prog }))
                                },
                            }
                        },
                    },
                }
            },
            o => Err((wrong_token_spec(o, "static expr. name"@), prog)),
        },
    }
}

/// The statement `import "file"` at index `i`: the name of the file, and
/// the position of the statement. The semicolon after it is read once the
/// file is parsed.
pub open spec fn import_spec(toks: Tokens, i: int) -> Result<(Seq<char>, PositionView, int), ErrorView> {
    match expect_spec(toks, i, TokenView::Keyword(Keyword::Import)) {
        Err(e) => Err(e),
        Ok((fp, j)) => match entry_at(toks, j) {
            Some((TokenView::Literal(s), p)) => match quoted_name(s) {
                Some(f) => Ok((f, span(fp, p), j + 1)),
                None => Err(error_spec((ErrKind::ImportError, "Expected filename, got '"@ + s + "'"@), Some(p))),
            },
            o => Err(wrong_token_spec(o, "file name"@)),
        },
    }
}

/// The program once the structure `d` is added to it: a structure with the
/// same module and name is replaced, with a warning.
pub open spec fn with_structure(prog: SlothProgramView, d: CustomDefinitionView) -> SlothProgramView {
    SlothProgramView {
        structures: structures_with(prog.structures, d),
        warnings: match replaced_structure(prog.structures, d) {
            Some(_) => prog.warnings.push(WarningView {
                text: "The structure '"@ + d.signature.name + "' has been overwritten"@,
                position: None,
            }),
            None => prog.warnings,
        },
        ..prog
    }
}

/// The program once the function `f` is added to it: a function with the
/// same module, name and owner type is replaced, with a warning.
pub open spec fn with_function(prog: SlothProgramView, f: CustomFunctionView) -> SlothProgramView {
    SlothProgramView {
        functions: functions_with(prog.functions, f),
        warnings: match replaced_function(prog.functions, f) {
            Some(_) => prog.warnings.push(WarningView {
                text: "The function '"@ + f.signature.name + "' has been overwritten"@,
                position: None,
            }),
            None => prog.warnings,
        },
        ..prog
    }
}

/// The message of the error on a keyword that starts no definition.
pub open spec fn top_keyword_message(k: Keyword) -> Seq<char> {
    "Expected 'builtin', 'import', 'static', 'structure' or 'define', got unexpected keyword '"@ + k.text() + "'"@
}

/// The definition at index `i`, which starts with the keyword `k` at `p`,
/// added to the program `prog`: an import of built-ins, a static
/// expression, a structure or a function; any other keyword is an error.
/// Gives the index after it; on an error, the program with the warnings
/// raised until the error.
#[verifier::opaque]
pub open spec fn definition_spec(toks: Tokens, i: int, k: Keyword, p: PositionView, module: Option<Seq<char>>, warn: bool, prog: SlothProgramView) -> Result<(int, SlothProgramView), (ErrorView, SlothProgramView)> {
    match k {
        Keyword::Builtin => match builtin_spec(toks, i, warn, prog.warnings) {
            Err((e, ws)) => Err((e, SlothProgramView { warnings: ws, ..prog })),
            Ok((imp, j, ws)) => Ok((j, SlothProgramView { imports: prog.imports.push(imp), warnings: ws, ..prog })),
        },
        Keyword::Static => static_spec(toks, i, warn, prog),
        Keyword::Structure => match structure_spec(toks, i, module, warn, prog.warnings) {
            Err((e, ws)) => Err((e, SlothProgramView { warnings: ws, ..prog })),
            Ok((d, j, ws)) => Ok((j, with_structure(SlothProgramView { warnings: ws, ..prog }, d))),
        },
        Keyword::Define => match function_spec(toks, i, module, warn, prog.warnings) {
            Err((e, ws)) => Err((e, SlothProgramView { warnings: ws, ..prog })),
            Ok((f, j, ws)) => Ok((j, with_function(SlothProgramView { warnings: ws, ..prog }, f))),
        },
        _ => Err((error_spec((ErrKind::SyntaxError, top_keyword_message(k)), Some(p)), prog)),
    }
}

/// The definitions of a file from index `i` on, added to the program
/// `prog`: up to the end of the file, or up to an `import` statement, whose
/// file must be parsed before going on. On an error, also the program as
/// the parse left it: the definitions before the failing one, and the
/// warnings raised until the error.
pub open spec fn file_spec(toks: Tokens, i: int, module: Option<Seq<char>>, warn: bool, prog: SlothProgramView) -> Result<(FileStepView, int, SlothProgramView), (ErrorView, SlothProgramView)>
    decreases toks.len() - i,
{
    match entry_at(toks, i) {
        None => Ok((FileStepView::Done, i, prog)),
        Some((TokenView::Keyword(k), p)) => {
            if k == Keyword::Import {
                match import_spec(toks, i) {
                    Err(e) => Err((e, prog)),
                    Ok((f, pos, j)) => Ok((FileStepView::Import(f, pos), j, prog)),
                }
            } else {
                match definition_spec(toks, i, k, p, module, warn, prog) {
                    Err(f) => Err(f),
                    Ok((j, prog1)) => if !advanced(toks, i, j) {
                        Err((eof_error(), prog1))
                    } else {
                        file_spec(toks, j, module, warn, prog1)
                    },
                }
            }
        },
        o => Err((wrong_token_spec(o, "keyword"@), prog)),
    }
}

/// Whether every import of `imps` names an existing module and existing
/// built-ins of it.
pub open spec fn valid_imports(imps: Seq<BuiltInImportView>) -> bool {
    forall|k: int| 0 <= k < imps.len() ==> #[trigger] import_check(imps[k]) == Ok::<(), Seq<char>>(())
}

/// The parser adds only imports that it checked: parsing the definitions
/// of a file into a program whose imports are valid leaves them valid.
pub proof fn lemma_parsed_imports_valid(toks: Tokens, i: int, module: Option<Seq<char>>, warn: bool, prog: SlothProgramView)
    requires
        valid_imports(prog.imports),
    ensures
        file_spec(toks, i, module, warn, prog) matches Ok((_, _, p)) ==> valid_imports(p.imports),
    decreases toks.len() - i,
{
    reveal(definition_spec);
    if let Some((TokenView::Keyword(k), p)) = entry_at(toks, i) {
        if k != Keyword::Import {
            if let Ok((j, prog1)) = definition_spec(toks, i, k, p, module, warn, prog) {
                if k == Keyword::Builtin {
                    if let Ok((imp, j1, ws)) = builtin_spec(toks, i, warn, prog.warnings) {
                        assert(import_check(imp) == Ok::<(), Seq<char>>(()));
                        assert(prog1.imports == prog.imports.push(imp));
                        assert forall|q: int| 0 <= q < prog1.imports.len() implies #[trigger] import_check(prog1.imports[q]) == Ok::<(), Seq<char>>(()) by {
                            if q < prog.imports.len() {
                                assert(prog1.imports[q] == prog.imports[q]);
                            }
                        }
                    }
                }
                assert(valid_imports(prog1.imports));
                if advanced(toks, i, j) {
                    lemma_parsed_imports_valid(toks, j, module, warn, prog1);
                }
            }
        }
    }
}

/// The imports of a program that the parser built name no unknown module.
pub proof fn lemma_valid_imports_known(imps: Seq<BuiltInImportView>, i: int)
    requires
        valid_imports(imps),
        0 <= i,
    ensures
        first_unknown_module(imps, i) is None,
    decreases imps.len() - i,
{
    if i < imps.len() {
        assert(import_check(imps[i]) == Ok::<(), Seq<char>>(()));
        lemma_valid_imports_known(imps, i + 1);
    }
}

/// Valid imports, such as those of a program that the parser built, bring
/// their built-ins without error.
pub proof fn lemma_valid_imports_import(imps: Seq<BuiltInImportView>)
    requires
        valid_imports(imps),
    ensures
        imported_builtins(imps) is Ok,
{
    lemma_valid_imports_known(imps, 0);
    assert forall|i: int| 0 <= i < imps.len() implies #[trigger] import_check(imps[i]) is Ok by {
        assert(import_check(imps[i]) == Ok::<(), Seq<char>>(()));
    }
    lemma_valid_imports_collapse(imps);
}

/// An operation reads one operand after `!` and `#`, and two after every
/// other operator; it is a call, with no object, of the function named `@`
/// and the operator's name, on the operands it read.
pub proof fn lemma_operation_arity(toks: Tokens, i: int)
    ensures
        match entry_at(toks, i) {
            Some((TokenView::Operator(o), _)) => operation_spec(toks, i) matches Ok((e, _)) ==> {
                &&& e matches ExpressionView::FunctionCall(obj, sig, args, _)
                &&& obj is None
                &&& sig.name == "@"@ + o.name()
                &&& args.len() == (if o == Operator::Inv || o == Operator::Len { 1int } else { 2int })
            },
            _ => operation_spec(toks, i) is Err,
        },
{
}

/// On an operator followed by two literals, an expression is the call of
/// the operator's function on the first literal alone for `!` and `#`, and
/// on both literals, which it reads to the end, for every other operator.
pub proof fn lemma_operation_operands(o: Operator, a: Seq<char>, b: Seq<char>, p0: PositionView, p1: PositionView, p2: PositionView)
    ensures
        ({
            let toks = seq![(TokenView::Operator(o), p0), (TokenView::Literal(a), p1), (TokenView::Literal(b), p2)];
            let la = ExpressionView::Literal(a, p1);
            let lb = ExpressionView::Literal(b, p2);
            if o == Operator::Inv || o == Operator::Len {
                expression_spec(toks, 0, None)
                    == Ok::<(ExpressionView, int), ErrorView>((ExpressionView::FunctionCall(None, operator_signature(o), seq![la], span(p0, p1)), 2))
            } else {
                expression_spec(toks, 0, None)
                    == Ok::<(ExpressionView, int), ErrorView>((ExpressionView::FunctionCall(None, operator_signature(o), seq![la, lb], span(p0, p2)), 3))
            }
        }),
{
    let toks = seq![(TokenView::Operator(o), p0), (TokenView::Literal(a), p1), (TokenView::Literal(b), p2)];
    let la = ExpressionView::Literal(a, p1);
    let lb = ExpressionView::Literal(b, p2);
    assert(entry_at(toks, 1) == Some((TokenView::Literal(a), p1)));
    assert(entry_at(toks, 2) == Some((TokenView::Literal(b), p2)));
    assert(entry_at(toks, 3) is None);
    assert(primary_spec(toks, 1, None) == Ok::<(ExpressionView, int), ErrorView>((la, 2)));
    assert(expression_spec(toks, 1, None) == Ok::<(ExpressionView, int), ErrorView>((la, 2)));
    assert(primary_spec(toks, 2, None) == Ok::<(ExpressionView, int), ErrorView>((lb, 3)));
    assert(expression_spec(toks, 2, None) == Ok::<(ExpressionView, int), ErrorView>((lb, 3)));
    assert(entry_at(toks, 0) == Some((TokenView::Operator(o), p0)));
    if o == Operator::Inv || o == Operator::Len {
        let e = ExpressionView::FunctionCall(None, operator_signature(o), seq![la], span(p0, p1));
        assert(operation_spec(toks, 0) == Ok::<(ExpressionView, int), ErrorView>((e, 2)));
        assert(primary_spec(toks, 0, None) == Ok::<(ExpressionView, int), ErrorView>((e, 2)));
    } else {
        let e = ExpressionView::FunctionCall(None, operator_signature(o), seq![la, lb], span(p0, p2));
        assert(operation_spec(toks, 0) == Ok::<(ExpressionView, int), ErrorView>((e, 3)));
        assert(primary_spec(toks, 0, None) == Ok::<(ExpressionView, int), ErrorView>((e, 3)));
    }
}

/// The names of the basic types: `any`, `num`, `bool` and `string` name
/// the types Any, Number, Boolean and String; a type read from a single
/// other name, not `list`, is the structure of that name. A type name is
/// read alone, at its own position.
pub proof fn lemma_type_names(toks: Tokens, i: int, n: Seq<char>, p: PositionView)
    requires
        entry_at(toks, i) == Some((TokenView::Identifier(n), p)),
        n != "list"@,
    ensures
        n == "any"@ ==> type_spec(toks, i) == Ok::<(TypeView, PositionView, int), ErrorView>((TypeView::Any, span(p, p), i + 1)),
        n == "num"@ ==> type_spec(toks, i) == Ok::<(TypeView, PositionView, int), ErrorView>((TypeView::Number, span(p, p), i + 1)),
        n == "bool"@ ==> type_spec(toks, i) == Ok::<(TypeView, PositionView, int), ErrorView>((TypeView::Boolean, span(p, p), i + 1)),
        n == "string"@ ==> type_spec(toks, i) == Ok::<(TypeView, PositionView, int), ErrorView>((TypeView::String, span(p, p), i + 1)),
        n != "any"@ && n != "num"@ && n != "bool"@ && n != "string"@
            ==> type_spec(toks, i) == Ok::<(TypeView, PositionView, int), ErrorView>((TypeView::Object(n), span(p, p), i + 1)),
{
    reveal_strlit("any");
    reveal_strlit("num");
    reveal_strlit("bool");
    reveal_strlit("string");
    reveal_strlit("list");
    assert("any"@[0] == 'a' && "num"@[0] == 'n' && "bool"@[0] == 'b' && "string"@[0] == 's' && "list"@[0] == 'l');
}

/// Different names that are not `list` name different types: reading a
/// type from a single name loses nothing of the name.
pub proof fn lemma_type_names_distinct(toks1: Tokens, i1: int, n1: Seq<char>, p1: PositionView, toks2: Tokens, i2: int, n2: Seq<char>, p2: PositionView)
    requires
        entry_at(toks1, i1) == Some((TokenView::Identifier(n1), p1)),
        entry_at(toks2, i2) == Some((TokenView::Identifier(n2), p2)),
        n1 != "list"@,
        n2 != "list"@,
        n1 != n2,
    ensures
        type_spec(toks1, i1) matches Ok((t1, _, _)) && type_spec(toks2, i2) matches Ok((t2, _, _)) && t1 != t2,
{
    lemma_type_names(toks1, i1, n1, p1);
    lemma_type_names(toks2, i2, n2, p2);
}

} // verus!
