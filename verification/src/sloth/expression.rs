//! Expressions of the language.

use vstd::prelude::*;
use crate::position::{Position, PositionView};
use crate::sloth::function::{FunctionSignature, FunctionSignatureView};
use crate::sloth::structure::{StructSignature, StructSignatureView};

verus! {

/// An expression, with its position in the source file.
pub enum Expression {
    /// A literal (string, number or boolean), as written.
    Literal(String, Position),
    /// A list written `[e1 e2 ...]`.
    ListInit(Vec<Expression>, Position),
    /// An element of a list: `e[index]`.
    BracketAccess(Box<Expression>, Box<Expression>, Position),
    /// A variable, or a field of the value of the first expression.
    VariableAccess(Option<Box<Expression>>, String, Position),
    /// A function call, or a method call on the value of the first expression.
    FunctionCall(Option<Box<Expression>>, FunctionSignature, Vec<Expression>, Position),
    /// The construction of a structure: `new S(e1 e2 ...)`.
    ObjectConstruction(StructSignature, Vec<Expression>, Position),
}

/// The mathematical value of an [`Expression`].
pub enum ExpressionView {
    Literal(Seq<char>, PositionView),
    ListInit(Seq<ExpressionView>, PositionView),
    BracketAccess(Box<ExpressionView>, Box<ExpressionView>, PositionView),
    VariableAccess(Option<Box<ExpressionView>>, Seq<char>, PositionView),
    FunctionCall(Option<Box<ExpressionView>>, FunctionSignatureView, Seq<ExpressionView>, PositionView),
    ObjectConstruction(StructSignatureView, Seq<ExpressionView>, PositionView),
}

/// The mathematical value of an expression.
pub open spec fn expr_view(e: Expression) -> ExpressionView
    decreases e,
{
    match e {
        Expression::Literal(s, p) => ExpressionView::Literal(s@, p@),
        Expression::ListInit(v, p) => ExpressionView::ListInit(
            Seq::new(v@.len(), |i: int| if 0 <= i < v@.len() { expr_view(v@[i]) } else { ExpressionView::Literal(seq![], p@) }),
            p@,
        ),
        Expression::BracketAccess(a, b, p) => ExpressionView::BracketAccess(
            Box::new(expr_view(*a)),
            Box::new(expr_view(*b)),
            p@,
        ),
        Expression::VariableAccess(f, n, p) => ExpressionView::VariableAccess(
            match f { Some(b) => Some(Box::new(expr_view(*b))), None => None },
            n@,
            p@,
        ),
        Expression::FunctionCall(f, s, v, p) => ExpressionView::FunctionCall(
            match f { Some(b) => Some(Box::new(expr_view(*b))), None => None },
            s@,
            Seq::new(v@.len(), |i: int| if 0 <= i < v@.len() { expr_view(v@[i]) } else { ExpressionView::Literal(seq![], p@) }),
            p@,
        ),
        Expression::ObjectConstruction(s, v, p) => ExpressionView::ObjectConstruction(
            s@,
            Seq::new(v@.len(), |i: int| if 0 <= i < v@.len() { expr_view(v@[i]) } else { ExpressionView::Literal(seq![], p@) }),
            p@,
        ),
    }
}

impl View for Expression {
    type V = ExpressionView;

    open spec fn view(&self) -> ExpressionView {
        expr_view(*self)
    }
}

/// The views of a sequence of expressions.
pub open spec fn exprs_view(v: Seq<Expression>) -> Seq<ExpressionView> {
    Seq::new(v.len(), |i: int| expr_view(v[i]))
}

/// The view of an optional first expression.
pub open spec fn first_view(f: Option<Box<Expression>>) -> Option<Box<ExpressionView>> {
    match f {
        Some(b) => Some(Box::new(expr_view(*b))),
        None => None,
    }
}

/// The position of an expression.
pub open spec fn expr_pos(e: ExpressionView) -> PositionView {
    match e {
        ExpressionView::Literal(_, p) => p,
        ExpressionView::ListInit(_, p) => p,
        ExpressionView::BracketAccess(_, _, p) => p,
        ExpressionView::VariableAccess(_, _, p) => p,
        ExpressionView::FunctionCall(_, _, _, p) => p,
        ExpressionView::ObjectConstruction(_, _, p) => p,
    }
}

/// The view of an expression, with the views of the expressions it holds
/// written through `exprs_view`.
pub proof fn lemma_expr_view(e: Expression)
    ensures
        match e {
            Expression::ListInit(v, p) => expr_view(e) == ExpressionView::ListInit(exprs_view(v@), p@),
            Expression::FunctionCall(f, s, v, p) => expr_view(e) == ExpressionView::FunctionCall(first_view(f), s@, exprs_view(v@), p@),
            Expression::ObjectConstruction(s, v, p) => expr_view(e) == ExpressionView::ObjectConstruction(s@, exprs_view(v@), p@),
            _ => true,
        },
{
    match e {
        Expression::ListInit(v, p) => {
            assert(expr_view(e)->ListInit_0 =~= exprs_view(v@));
        },
        Expression::FunctionCall(f, s, v, p) => {
            assert(expr_view(e)->FunctionCall_2 =~= exprs_view(v@));
        },
        Expression::ObjectConstruction(s, v, p) => {
            assert(expr_view(e)->ObjectConstruction_1 =~= exprs_view(v@));
        },
        _ => {},
    }
}

/// Adding an expression to a list adds its view.
pub proof fn lemma_exprs_view_push(v: Seq<Expression>, e: Expression)
    ensures
        exprs_view(v.push(e)) == exprs_view(v).push(expr_view(e)),
{
    assert(exprs_view(v.push(e)) =~= exprs_view(v).push(expr_view(e)));
}

impl Expression {
    /// The position of the expression.
    pub fn get_pos(&self) -> (r: Position)
        ensures
            r@ == expr_pos(self@),
    {
        match self {
            Expression::Literal(_, p) => p.duplicate(),
            Expression::ListInit(_, p) => p.duplicate(),
            Expression::BracketAccess(_, _, p) => p.duplicate(),
            Expression::VariableAccess(_, _, p) => p.duplicate(),
            Expression::FunctionCall(_, _, _, p) => p.duplicate(),
            Expression::ObjectConstruction(_, _, p) => p.duplicate(),
        }
    }
}

} // verus!
