//! Division of numbers.

use vstd::prelude::*;
use crate::lexer::operator::Operator;
use crate::operations::{OperatorFunction, OperatorFunctionView, operation, operations_view, unary, binary};
use crate::sloth::types::{Type, TypeView};

verus! {

/// The operations of this module, in order.
pub open spec fn operations() -> Seq<OperatorFunctionView> {
    seq![
        operation(Operator::Div, seq![TypeView::Number, TypeView::Number], TypeView::Number),
    ]
}

/// The operations of this module, in the order of `operations`.
pub fn get_all() -> (r: Vec<OperatorFunction>)
    ensures
        operations_view(r@) == operations(),
{
    let mut v: Vec<OperatorFunction> = Vec::new();
    v.push(binary(Operator::Div, Type::Number, Type::Number, Type::Number));
    proof {
        assert(operations_view(v@) =~= operations());
    }
    v
}

} // verus!
