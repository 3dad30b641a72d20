//! Positions of elements (tokens, expressions, ...) in a source file.

use vstd::prelude::*;
use crate::text::{string_of, usize_to_string, decimal};

verus! {

/// The position of an element (token, expression, etc.) in a file.
/// An element can't be on two lines at the same time.
pub struct Position {
    pub filename: String,
    pub line: usize,
    /// Column index of the first character of the element.
    pub first_column: usize,
    /// Column index of the last character of the element, when known.
    pub last_column: Option<usize>,
}

/// The mathematical value of a [`Position`].
pub struct PositionView {
    pub filename: Seq<char>,
    pub line: usize,
    pub first_column: usize,
    pub last_column: Option<usize>,
}

impl View for Position {
    type V = PositionView;

    open spec fn view(&self) -> PositionView {
        PositionView {
            filename: self.filename@,
            line: self.line,
            first_column: self.first_column,
            last_column: self.last_column,
        }
    }
}

/// The position from the start of `a` to the end of `b`.
pub open spec fn span(a: PositionView, b: PositionView) -> PositionView {
    PositionView { last_column: b.last_column, ..a }
}

/// Whether the numbers of a position can be written one-based.
pub open spec fn printable(p: PositionView) -> bool {
    &&& p.line < usize::MAX
    &&& p.first_column < usize::MAX
    &&& (p.last_column matches Some(n) ==> n < usize::MAX)
}

/// The text of a position: file name, then line and columns counted from one.
pub open spec fn position_text(p: PositionView) -> Seq<char> {
    "("@ + p.filename + ", line "@ + decimal((p.line + 1) as nat) + ", "@
        + decimal((p.first_column + 1) as nat) + "-"@
        + match p.last_column {
        Some(n) => decimal((n + 1) as nat),
        None => "?"@,
    } + ")"@
}

impl Position {
    /// A copy of the position.
    pub fn duplicate(&self) -> (r: Position)
        ensures
            r@ == self@,
    {
        Position {
            filename: self.filename.clone(),
            line: self.line,
            first_column: self.first_column,
            last_column: self.last_column,
        }
    }

    /// The text of the position, as `(file, line L, F-E)`, every number
    /// counted from one and `?` for an unknown last column.
    pub fn to_string(&self) -> (r: String)
        requires
            printable(self@),
        ensures
            r@ == position_text(self@),
    {
        let last = match self.last_column {
            Some(n) => usize_to_string(n + 1),
            None => string_of("?"),
        };
        let mut r = string_of("(");
        r.append(self.filename.as_str());
        r.append(", line ");
        r.append(usize_to_string(self.line + 1).as_str());
        r.append(", ");
        r.append(usize_to_string(self.first_column + 1).as_str());
        r.append("-");
        r.append(last.as_str());
        r.append(")");
        r
    }

    /// A new position starting from the start of `self` until the end of
    /// `other`. Both must be in the same file.
    pub fn until(&self, other: Position) -> (r: Position)
        requires
            self.filename@ == other.filename@,
        ensures
            r@ == span(self@, other@),
    {
        Position {
            filename: self.filename.clone(),
            line: self.line,
            first_column: self.first_column,
            last_column: other.last_column,
        }
    }
}

/// Linking positions keeps the start of the first and the end of the
/// last, however they are grouped: `until` is associative.
pub proof fn lemma_until_associative(a: PositionView, b: PositionView, c: PositionView)
    ensures
        span(span(a, b), c) == span(a, span(b, c)),
        span(span(a, b), c) == span(a, c),
{
}

} // verus!
