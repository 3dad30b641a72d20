//! Multiplication: of numbers, and of booleans (and).

use vstd::prelude::*;
use crate::lexer::operator::Operator;
use crate::operations::{OperatorFunction, OperatorFunctionView, operation, operations_view, unary, binary};
use crate::sloth::types::{Type, TypeView};

verus! {

/// The operations of this module, in order.
pub open spec fn operations() -> Seq<OperatorFunctionView> {
    seq![
        operation(Operator::Mul, seq![TypeView::Number, TypeView::Number], TypeView::Number),
        operation(Operator::Mul, seq![TypeView::Boolean, TypeView::Boolean], TypeView::Boolean),
    ]
}

/// The operations of this module, in the order of `operations`.
pub fn get_all() -> (r: Vec<OperatorFunction>)
    ensures
        operations_view(r@) == operations(),
{
    let mut v: Vec<OperatorFunction> = Vec::new();
    v.push(binary(Operator::Mul, Type::Number, Type::Number, Type::Number));
    v.push(binary(Operator::Mul, Type::Boolean, Type::Boolean, Type::Boolean));
    proof {
        assert(operations_view(v@) =~= operations());
    }
    v
}

/// What `*` computes on two booleans: whether both hold.
pub fn mul_booleans(b1: bool, b2: bool) -> (r: bool)
    ensures
        r == (b1 && b2),
{
    b1 && b2
}

} // verus!
