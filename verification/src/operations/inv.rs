//! Negation of a boolean.

use vstd::prelude::*;
use crate::lexer::operator::Operator;
use crate::operations::{OperatorFunction, OperatorFunctionView, operation, operations_view, unary, binary};
use crate::sloth::types::{Type, TypeView};

verus! {

/// The operations of this module, in order.
pub open spec fn operations() -> Seq<OperatorFunctionView> {
    seq![
        operation(Operator::Inv, seq![TypeView::Boolean], TypeView::Boolean),
    ]
}

/// The operations of this module, in the order of `operations`.
pub fn get_all() -> (r: Vec<OperatorFunction>)
    ensures
        operations_view(r@) == operations(),
{
    let mut v: Vec<OperatorFunction> = Vec::new();
    v.push(unary(Operator::Inv, Type::Boolean, Type::Boolean));
    proof {
        assert(operations_view(v@) =~= operations());
    }
    v
}

/// What `!` computes on a boolean: its negation.
pub fn inv_boolean(b: bool) -> (r: bool)
    ensures
        r == !b,
{
    !b
}

} // verus!
