//! Errors and warnings returned by the interpreter.

use vstd::prelude::*;
use crate::position::{Position, PositionView};
use crate::text::string_of;

verus! {

/// An error message returned by the interpreter, at build time or at run
/// time: its kind and its text.
pub enum ErrMsg {
    SyntaxError(String),
    NoEntryPoint(String),
    FileError(String),
    InvalidArguments(String),
    UnexpectedExpression(String),
    RuntimeError(String),
    UnexpectedEOF(String),
    TypeError(String),
    RustError(String),
    ReturnValueError(String),
    ImportError(String),
    DefinitionError(String),
    FunctionError(String),
}

/// The kind of an [`ErrMsg`].
#[derive(Clone, Copy, Debug, PartialEq, Eq, Structural)]
pub enum ErrKind {
    SyntaxError,
    NoEntryPoint,
    FileError,
    InvalidArguments,
    UnexpectedExpression,
    RuntimeError,
    UnexpectedEOF,
    TypeError,
    RustError,
    ReturnValueError,
    ImportError,
    DefinitionError,
    FunctionError,
}

impl View for ErrMsg {
    type V = (ErrKind, Seq<char>);

    open spec fn view(&self) -> (ErrKind, Seq<char>) {
        match self {
            ErrMsg::SyntaxError(s) => (ErrKind::SyntaxError, s@),
            ErrMsg::NoEntryPoint(s) => (ErrKind::NoEntryPoint, s@),
            ErrMsg::FileError(s) => (ErrKind::FileError, s@),
            ErrMsg::InvalidArguments(s) => (ErrKind::InvalidArguments, s@),
            ErrMsg::UnexpectedExpression(s) => (ErrKind::UnexpectedExpression, s@),
            ErrMsg::RuntimeError(s) => (ErrKind::RuntimeError, s@),
            ErrMsg::UnexpectedEOF(s) => (ErrKind::UnexpectedEOF, s@),
            ErrMsg::TypeError(s) => (ErrKind::TypeError, s@),
            ErrMsg::RustError(s) => (ErrKind::RustError, s@),
            ErrMsg::ReturnValueError(s) => (ErrKind::ReturnValueError, s@),
            ErrMsg::ImportError(s) => (ErrKind::ImportError, s@),
            ErrMsg::DefinitionError(s) => (ErrKind::DefinitionError, s@),
            ErrMsg::FunctionError(s) => (ErrKind::FunctionError, s@),
        }
    }
}

/// The title printed above an error of the given kind.
pub open spec fn title(k: ErrKind) -> Seq<char> {
    match k {
        ErrKind::SyntaxError => "SYNTAX ERROR"@,
        ErrKind::NoEntryPoint => "NO ENTRY POINT"@,
        ErrKind::FileError => "FILE ERRO"@,
        ErrKind::InvalidArguments => "INVALID ARGUMENTS"@,
        ErrKind::UnexpectedExpression => "UNEXPECTED EXPRESSION"@,
        ErrKind::RuntimeError => "RUNTIME ERROR"@,
        ErrKind::UnexpectedEOF => "UNEXPECTED EOF"@,
        ErrKind::TypeError => "TYPE ERROR"@,
        ErrKind::RustError => "RUST ERROR"@,
        ErrKind::ReturnValueError => "RETURN VALUE ERROR"@,
        ErrKind::ImportError => "IMPORT ERROR"@,
        ErrKind::DefinitionError => "DEFINITION ERROR"@,
        ErrKind::FunctionError => "FUNCTION ERROR"@,
    }
}

/// The text of an error message as it is displayed.
pub open spec fn message_text(m: (ErrKind, Seq<char>)) -> Seq<char> {
    if m.0 == ErrKind::RustError {
        m.1 + " (this error is from Rust, it is unlikely your fault)"@
    } else {
        m.1
    }
}

impl ErrMsg {
    /// The title printed above the error.
    pub fn get_title(&self) -> (r: String)
        ensures
            r@ == title(self@.0),
    {
        match self {
            ErrMsg::SyntaxError(..) => string_of("SYNTAX ERROR"),
            ErrMsg::NoEntryPoint(..) => string_of("NO ENTRY POINT"),
            ErrMsg::FileError(..) => string_of("FILE ERRO"),
            ErrMsg::InvalidArguments(..) => string_of("INVALID ARGUMENTS"),
            ErrMsg::UnexpectedExpression(..) => string_of("UNEXPECTED EXPRESSION"),
            ErrMsg::RuntimeError(..) => string_of("RUNTIME ERROR"),
            ErrMsg::UnexpectedEOF(..) => string_of("UNEXPECTED EOF"),
            ErrMsg::TypeError(..) => string_of("TYPE ERROR"),
            ErrMsg::RustError(..) => string_of("RUST ERROR"),
            ErrMsg::ReturnValueError(..) => string_of("RETURN VALUE ERROR"),
            ErrMsg::ImportError(..) => string_of("IMPORT ERROR"),
            ErrMsg::DefinitionError(..) => string_of("DEFINITION ERROR"),
            ErrMsg::FunctionError(..) => string_of("FUNCTION ERROR"),
        }
    }

    /// The text of the message as it is displayed.
    pub fn to_string(&self) -> (r: String)
        ensures
            r@ == message_text(self@),
    {
        match self {
            ErrMsg::SyntaxError(e) => e.clone(),
            ErrMsg::NoEntryPoint(e) => e.clone(),
            ErrMsg::FileError(e) => e.clone(),
            ErrMsg::InvalidArguments(e) => e.clone(),
            ErrMsg::UnexpectedExpression(e) => e.clone(),
            ErrMsg::RuntimeError(e) => e.clone(),
            ErrMsg::UnexpectedEOF(e) => e.clone(),
            ErrMsg::TypeError(e) => e.clone(),
            ErrMsg::RustError(e) => {
                let mut r = e.clone();
                r.append(" (this error is from Rust, it is unlikely your fault)");
                r
            },
            ErrMsg::ReturnValueError(e) => e.clone(),
            ErrMsg::ImportError(e) => e.clone(),
            ErrMsg::DefinitionError(e) => e.clone(),
            ErrMsg::FunctionError(e) => e.clone(),
        }
    }

    /// A copy of the message.
    pub fn duplicate(&self) -> (r: ErrMsg)
        ensures
            r@ == self@,
    {
        match self {
            ErrMsg::SyntaxError(e) => ErrMsg::SyntaxError(e.clone()),
            ErrMsg::NoEntryPoint(e) => ErrMsg::NoEntryPoint(e.clone()),
            ErrMsg::FileError(e) => ErrMsg::FileError(e.clone()),
            ErrMsg::InvalidArguments(e) => ErrMsg::InvalidArguments(e.clone()),
            ErrMsg::UnexpectedExpression(e) => ErrMsg::UnexpectedExpression(e.clone()),
            ErrMsg::RuntimeError(e) => ErrMsg::RuntimeError(e.clone()),
            ErrMsg::UnexpectedEOF(e) => ErrMsg::UnexpectedEOF(e.clone()),
            ErrMsg::TypeError(e) => ErrMsg::TypeError(e.clone()),
            ErrMsg::RustError(e) => ErrMsg::RustError(e.clone()),
            ErrMsg::ReturnValueError(e) => ErrMsg::ReturnValueError(e.clone()),
            ErrMsg::ImportError(e) => ErrMsg::ImportError(e.clone()),
            ErrMsg::DefinitionError(e) => ErrMsg::DefinitionError(e.clone()),
            ErrMsg::FunctionError(e) => ErrMsg::FunctionError(e.clone()),
        }
    }
}

/// An error returned by the interpreter, at build time or at run time: a
/// message and the backtrace of the positions where it happened, the
/// shallowest first.
pub struct Error {
    pub message: ErrMsg,
    pub position_trace: Vec<Position>,
}

/// The mathematical value of an [`Error`].
pub struct ErrorView {
    pub message: (ErrKind, Seq<char>),
    pub position_trace: Seq<PositionView>,
}

impl View for Error {
    type V = ErrorView;

    open spec fn view(&self) -> ErrorView {
        ErrorView {
            message: self.message@,
            position_trace: self.position_trace@.map_values(|p: Position| p@),
        }
    }
}

/// The backtrace a new error starts with: a position with an empty file
/// name stands for no position.
pub open spec fn initial_trace(position: Option<PositionView>) -> Seq<PositionView> {
    match position {
        None => seq![],
        Some(p) => if p.filename.len() == 0 { seq![] } else { seq![p] },
    }
}

/// The backtrace of an error once `pos` is added to it: `pos` goes in
/// front, unless the shallowest position is already on the same line of
/// the same file.
pub open spec fn trace_with(trace: Seq<PositionView>, pos: PositionView) -> Seq<PositionView> {
    if trace.len() > 0 && trace[0].line == pos.line && trace[0].filename == pos.filename {
        trace
    } else {
        seq![pos] + trace
    }
}

/// The error with the given message and, in its backtrace, the given position.
pub open spec fn error_spec(message: (ErrKind, Seq<char>), position: Option<PositionView>) -> ErrorView {
    ErrorView { message, position_trace: initial_trace(position) }
}

impl Error {
    /// Create a new Error with the given message and position.
    pub fn new(message: ErrMsg, position: Option<Position>) -> (r: Error)
        ensures
            r@ == error_spec(message@, match position { Some(p) => Some(p@), None => None }),
    {
        let pos: Vec<Position> = match position {
            None => Vec::new(),
            Some(p) => {
                if p.filename.as_str().unicode_len() == 0 {
                    Vec::new()
                } else {
                    let mut v = Vec::new();
                    v.push(p);
                    v
                }
            },
        };
        let r = Error { message: message, position_trace: pos };
        assert(r@.position_trace =~= initial_trace(match position { Some(p) => Some(p@), None => None }));
        r
    }

    /// The error with the given position added to its backtrace. If the
    /// shallowest position is on the same line of the same file, the error
    /// is returned unchanged (the deeper position is the more precise).
    pub fn with(self, pos: &Position) -> (r: Error)
        ensures
            r@ == (ErrorView { position_trace: trace_with(self@.position_trace, pos@), ..self@ }),
    {
        if self.position_trace.len() > 0 {
            if self.position_trace[0].line == pos.line
                && self.position_trace[0].filename == pos.filename {
                return self;
            }
        }
        let ghost old_trace = self.position_trace@;
        let mut new_err = self;
        new_err.position_trace.insert(0, pos.duplicate());
        assert(new_err@.position_trace =~= seq![pos@] + old_trace.map_values(|p: Position| p@));
        new_err
    }
}

/// Adding a position to a backtrace twice adds it once.
pub proof fn lemma_with_idempotent(trace: Seq<PositionView>, pos: PositionView)
    ensures
        trace_with(trace_with(trace, pos), pos) == trace_with(trace, pos),
{
}

/// A warning returned by the interpreter at build time: a text and an
/// optional position.
pub struct Warning {
    pub text: String,
    pub position: Option<Position>,
}

/// The mathematical value of a [`Warning`]: its text and position.
pub struct WarningView {
    pub text: Seq<char>,
    pub position: Option<PositionView>,
}

impl View for Warning {
    type V = WarningView;

    open spec fn view(&self) -> WarningView {
        WarningView {
            text: self.text@,
            position: match self.position { Some(p) => Some(p@), None => None },
        }
    }
}

impl Warning {
    /// Create a new Warning with the given message and position.
    pub fn new(text: String, position: Option<Position>) -> (r: Warning)
        ensures
            r.text == text,
            r.position == position,
    {
        Warning { text: text, position: position }
    }
}

} // verus!
