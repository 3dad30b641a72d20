//! Addition: of numbers, of a number and a string (joined as text), of strings, and of booleans (or).

use vstd::prelude::*;
use crate::lexer::operator::Operator;
use crate::operations::{OperatorFunction, OperatorFunctionView, operation, operations_view, unary, binary};
use crate::sloth::types::{Type, TypeView};
use crate::text::string_of;

verus! {

/// The operations of this module, in order.
pub open spec fn operations() -> Seq<OperatorFunctionView> {
    seq![
        operation(Operator::Add, seq![TypeView::Number, TypeView::Number], TypeView::Number),
        operation(Operator::Add, seq![TypeView::Number, TypeView::String], TypeView::String),
        operation(Operator::Add, seq![TypeView::String, TypeView::Number], TypeView::String),
        operation(Operator::Add, seq![TypeView::String, TypeView::String], TypeView::String),
        operation(Operator::Add, seq![TypeView::Boolean, TypeView::Boolean], TypeView::Boolean),
    ]
}

/// The operations of this module, in the order of `operations`.
pub fn get_all() -> (r: Vec<OperatorFunction>)
    ensures
        operations_view(r@) == operations(),
{
    let mut v: Vec<OperatorFunction> = Vec::new();
    v.push(binary(Operator::Add, Type::Number, Type::Number, Type::Number));
    v.push(binary(Operator::Add, Type::Number, Type::String, Type::String));
    v.push(binary(Operator::Add, Type::String, Type::Number, Type::String));
    v.push(binary(Operator::Add, Type::String, Type::String, Type::String));
    v.push(binary(Operator::Add, Type::Boolean, Type::Boolean, Type::Boolean));
    proof {
        assert(operations_view(v@) =~= operations());
    }
    v
}

/// What `+` computes on two strings: the first followed by the second.
pub fn add_strings(s1: &str, s2: &str) -> (r: String)
    ensures
        r@ == s1@ + s2@,
{
    let mut r = string_of(s1);
    r.append(s2);
    r
}

/// What `+` computes on two booleans: whether either holds.
pub fn add_booleans(b1: bool, b2: bool) -> (r: bool)
    ensures
        r == (b1 || b2),
{
    b1 || b2
}

} // verus!
