//! Statements of the language.

use vstd::prelude::*;
use crate::position::{Position, PositionView};
use crate::sloth::expression::{Expression, ExpressionView, expr_view};

verus! {

/// A statement, with its position in the source file.
pub enum Statement {
    /// `target = source`
    Assignment(Box<Expression>, Box<Expression>, Position),
    /// An expression evaluated for its effect, such as a function call.
    ExpressionCall(Box<Expression>, Position),
    /// `if condition { statements }`
    If(Box<Expression>, Vec<Statement>, Position),
    /// `while condition { statements }`
    While(Box<Expression>, Vec<Statement>, Position),
}

/// The mathematical value of a [`Statement`].
pub enum StatementView {
    Assignment(Box<ExpressionView>, Box<ExpressionView>, PositionView),
    ExpressionCall(Box<ExpressionView>, PositionView),
    If(Box<ExpressionView>, Seq<StatementView>, PositionView),
    While(Box<ExpressionView>, Seq<StatementView>, PositionView),
}

/// The mathematical value of a statement.
pub open spec fn statement_view(s: Statement) -> StatementView
    decreases s,
{
    match s {
        Statement::Assignment(a, b, p) => StatementView::Assignment(Box::new(expr_view(*a)), Box::new(expr_view(*b)), p@),
        Statement::ExpressionCall(e, p) => StatementView::ExpressionCall(Box::new(expr_view(*e)), p@),
        Statement::If(c, v, p) => StatementView::If(
            Box::new(expr_view(*c)),
            Seq::new(v@.len(), |i: int| if 0 <= i < v@.len() { statement_view(v@[i]) } else { StatementView::ExpressionCall(Box::new(expr_view(*c)), p@) }),
            p@,
        ),
        Statement::While(c, v, p) => StatementView::While(
            Box::new(expr_view(*c)),
            Seq::new(v@.len(), |i: int| if 0 <= i < v@.len() { statement_view(v@[i]) } else { StatementView::ExpressionCall(Box::new(expr_view(*c)), p@) }),
            p@,
        ),
    }
}

impl View for Statement {
    type V = StatementView;

    open spec fn view(&self) -> StatementView {
        statement_view(*self)
    }
}

/// The views of a sequence of statements.
pub open spec fn statements_view(v: Seq<Statement>) -> Seq<StatementView> {
    Seq::new(v.len(), |i: int| statement_view(v[i]))
}

/// The view of a statement, with the views of the statements it holds
/// written through `statements_view`.
pub proof fn lemma_statement_view(s: Statement)
    ensures
        match s {
            Statement::If(c, v, p) => statement_view(s) == StatementView::If(Box::new(expr_view(*c)), statements_view(v@), p@),
            Statement::While(c, v, p) => statement_view(s) == StatementView::While(Box::new(expr_view(*c)), statements_view(v@), p@),
            _ => true,
        },
{
    match s {
        Statement::If(c, v, p) => {
            assert(statement_view(s)->If_1 =~= statements_view(v@));
        },
        Statement::While(c, v, p) => {
            assert(statement_view(s)->While_1 =~= statements_view(v@));
        },
        _ => {},
    }
}

/// Adding a statement to a list adds its view.
pub proof fn lemma_statements_view_push(v: Seq<Statement>, s: Statement)
    ensures
        statements_view(v.push(s)) == statements_view(v).push(statement_view(s)),
{
    assert(statements_view(v.push(s)) =~= statements_view(v).push(statement_view(s)));
}

/// The position of a statement.
pub open spec fn statement_pos(s: StatementView) -> PositionView {
    match s {
        StatementView::Assignment(_, _, p) => p,
        StatementView::ExpressionCall(_, p) => p,
        StatementView::If(_, _, p) => p,
        StatementView::While(_, _, p) => p,
    }
}

impl Statement {
    /// The position of the statement.
    pub fn get_pos(&self) -> (r: Position)
        ensures
            r@ == statement_pos(self@),
    {
        match self {
            Statement::Assignment(_, _, p) => p.duplicate(),
            Statement::ExpressionCall(_, p) => p.duplicate(),
            Statement::If(_, _, p) => p.duplicate(),
            Statement::While(_, _, p) => p.duplicate(),
        }
    }
}

} // verus!
