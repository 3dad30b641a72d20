//! Length: of a string, and of a list.

use vstd::prelude::*;
use crate::lexer::operator::Operator;
use crate::operations::{OperatorFunction, OperatorFunctionView, operation, operations_view, unary, binary};
use crate::sloth::types::{Type, TypeView};

verus! {

/// The operations of this module, in order.
pub open spec fn operations() -> Seq<OperatorFunctionView> {
    seq![
        operation(Operator::Len, seq![TypeView::String], TypeView::Number),
        operation(Operator::Len, seq![TypeView::List(Box::new(TypeView::Any))], TypeView::Number),
    ]
}

/// The operations of this module, in the order of `operations`.
pub fn get_all() -> (r: Vec<OperatorFunction>)
    ensures
        operations_view(r@) == operations(),
{
    let mut v: Vec<OperatorFunction> = Vec::new();
    v.push(unary(Operator::Len, Type::String, Type::Number));
    v.push(unary(Operator::Len, Type::List(Box::new(Type::Any)), Type::Number));
    proof {
        reveal_with_fuel(crate::sloth::types::type_view, 2);
        assert(operations_view(v@) =~= operations());
    }
    v
}

} // verus!
