//! Comparisons and logical operations: and, or, equality, and the orders on numbers and on strings.

use vstd::prelude::*;
use crate::lexer::operator::Operator;
use crate::operations::{OperatorFunction, OperatorFunctionView, operation, operations_view, unary, binary};
use crate::sloth::types::{Type, TypeView};
use crate::text::{text_less, str_less};

verus! {

/// The operations of this module, in order.
pub open spec fn operations() -> Seq<OperatorFunctionView> {
    seq![
        operation(Operator::And, seq![TypeView::Boolean, TypeView::Boolean], TypeView::Boolean),
        operation(Operator::Or, seq![TypeView::Boolean, TypeView::Boolean], TypeView::Boolean),
        operation(Operator::Eq, seq![TypeView::Any, TypeView::Any], TypeView::Boolean),
        operation(Operator::Gr, seq![TypeView::Number, TypeView::Number], TypeView::Boolean),
        operation(Operator::Gr, seq![TypeView::String, TypeView::String], TypeView::Boolean),
        operation(Operator::Ge, seq![TypeView::Number, TypeView::Number], TypeView::Boolean),
        operation(Operator::Ge, seq![TypeView::String, TypeView::String], TypeView::Boolean),
        operation(Operator::Lw, seq![TypeView::Number, TypeView::Number], TypeView::Boolean),
        operation(Operator::Lw, seq![TypeView::String, TypeView::String], TypeView::Boolean),
        operation(Operator::Le, seq![TypeView::Number, TypeView::Number], TypeView::Boolean),
        operation(Operator::Le, seq![TypeView::String, TypeView::String], TypeView::Boolean),
    ]
}

/// The operations of this module, in the order of `operations`.
pub fn get_all() -> (r: Vec<OperatorFunction>)
    ensures
        operations_view(r@) == operations(),
{
    let mut v: Vec<OperatorFunction> = Vec::new();
    v.push(binary(Operator::And, Type::Boolean, Type::Boolean, Type::Boolean));
    v.push(binary(Operator::Or, Type::Boolean, Type::Boolean, Type::Boolean));
    v.push(binary(Operator::Eq, Type::Any, Type::Any, Type::Boolean));
    v.push(binary(Operator::Gr, Type::Number, Type::Number, Type::Boolean));
    v.push(binary(Operator::Gr, Type::String, Type::String, Type::Boolean));
    v.push(binary(Operator::Ge, Type::Number, Type::Number, Type::Boolean));
    v.push(binary(Operator::Ge, Type::String, Type::String, Type::Boolean));
    v.push(binary(Operator::Lw, Type::Number, Type::Number, Type::Boolean));
    v.push(binary(Operator::Lw, Type::String, Type::String, Type::Boolean));
    v.push(binary(Operator::Le, Type::Number, Type::Number, Type::Boolean));
    v.push(binary(Operator::Le, Type::String, Type::String, Type::Boolean));
    proof {
        assert(operations_view(v@) =~= operations());
    }
    v
}

/// What `&` computes on two booleans: whether both hold.
pub fn and_booleans(b1: bool, b2: bool) -> (r: bool)
    ensures
        r == (b1 && b2),
{
    b1 && b2
}

/// What `?` computes on two booleans: whether either holds.
pub fn or_booleans(b1: bool, b2: bool) -> (r: bool)
    ensures
        r == (b1 || b2),
{
    b1 || b2
}

/// What `>` computes on two strings: whether the first comes after the
/// second in the order of texts.
pub fn gr_strings(s1: &str, s2: &str) -> (r: bool)
    ensures
        r == text_less(s2@, s1@),
{
    str_less(s2, s1)
}

/// What `>=` computes on two strings: whether the first does not come
/// before the second.
pub fn ge_strings(s1: &str, s2: &str) -> (r: bool)
    ensures
        r == !text_less(s1@, s2@),
{
    !str_less(s1, s2)
}

/// What `<` computes on two strings: whether the first comes before the
/// second in the order of texts.
pub fn lw_strings(s1: &str, s2: &str) -> (r: bool)
    ensures
        r == text_less(s1@, s2@),
{
    str_less(s1, s2)
}

/// What `<=` computes on two strings: whether the first does not come
/// after the second.
pub fn le_strings(s1: &str, s2: &str) -> (r: bool)
    ensures
        r == !text_less(s2@, s1@),
{
    !str_less(s2, s1)
}

} // verus!
