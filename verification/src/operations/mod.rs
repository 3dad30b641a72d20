//! The operations of the language (`+`, `-`, `==`, ...), as functions:
//! for each operator, the types it takes and gives. An operator can take
//! several sets of types. Each module also gives what its operator
//! computes on booleans and on strings; numbers are floating point, which
//! the library does not hold.

pub mod add;
pub mod cmp;
pub mod modulo;
pub mod sub;
pub mod mul;
pub mod div;
pub mod len;
pub mod inv;

use vstd::prelude::*;
use crate::lexer::operator::Operator;
use crate::sloth::function::{FunctionSignature, FunctionSignatureView};
use crate::sloth::types::{Type, TypeView};
use crate::text::string_of;

verus! {

/// An operation: the operator, which tells what it computes, and the
/// signature of the function implementing it, named `@` and the
/// operator's name.
pub struct OperatorFunction {
    pub operator: Operator,
    pub signature: FunctionSignature,
}

/// The mathematical value of an [`OperatorFunction`].
pub struct OperatorFunctionView {
    pub operator: Operator,
    pub signature: FunctionSignatureView,
}

impl View for OperatorFunction {
    type V = OperatorFunctionView;

    open spec fn view(&self) -> OperatorFunctionView {
        OperatorFunctionView { operator: self.operator, signature: self.signature@ }
    }
}

/// The operation of `op` on arguments of the types `inputs` (none passed
/// by reference), giving a value of the type `output`.
pub open spec fn operation(op: Operator, inputs: Seq<TypeView>, output: TypeView) -> OperatorFunctionView {
    OperatorFunctionView {
        operator: op,
        signature: FunctionSignatureView {
            module: None,
            name: "@"@ + op.name(),
            owner_type: None,
            input_types: Some(inputs.map_values(|t: TypeView| (t, false))),
            output_type: Some(output),
        },
    }
}

/// The views of a list of operations.
pub open spec fn operations_view(v: Seq<OperatorFunction>) -> Seq<OperatorFunctionView> {
    v.map_values(|f: OperatorFunction| f@)
}

/// The views of a list of types.
pub open spec fn types_view(v: Seq<Type>) -> Seq<TypeView> {
    v.map_values(|t: Type| t@)
}

impl OperatorFunction {
    /// The operation of `op` on arguments of the types `input_types`, none
    /// of them passed by reference, giving a value of the type `output_type`.
    pub fn new(op: Operator, input_types: Vec<Type>, output_type: Type) -> (r: OperatorFunction)
        ensures
            r@ == operation(op, types_view(input_types@), output_type@),
    {
        let mut inputs: Vec<(Type, bool)> = Vec::new();
        let mut i: usize = 0;
        while i < input_types.len()
            invariant
                i <= input_types@.len(),
                inputs@.len() == i,
                forall|k: int| 0 <= k < i ==> (#[trigger] inputs@[k]).0@ == input_types@[k]@ && !inputs@[k].1,
            decreases input_types@.len() - i,
        {
            inputs.push((input_types[i].duplicate(), false));
            i = i + 1;
        }
        proof {
            assert(inputs@.map_values(|p: (Type, bool)| (p.0@, p.1))
                =~= types_view(input_types@).map_values(|t: TypeView| (t, false)));
        }
        let mut name = string_of("@");
        name.append(op.get_name().as_str());
        OperatorFunction {
            operator: op,
            signature: FunctionSignature::new(None, name, None, Some(inputs), Some(output_type)),
        }
    }

    /// The types of the arguments of the operation, if they are known.
    pub fn get_input_types(&self) -> (r: Option<Vec<Type>>)
        ensures
            match r {
                Some(v) => self@.signature.input_types matches Some(s)
                    && types_view(v@) == s.map_values(|p: (TypeView, bool)| p.0),
                None => self@.signature.input_types is None,
            },
    {
        match &self.signature.input_types {
            None => None,
            Some(v) => {
                let mut types: Vec<Type> = Vec::new();
                let mut i: usize = 0;
                while i < v.len()
                    invariant
                        i <= v@.len(),
                        types@.len() == i,
                        forall|k: int| 0 <= k < i ==> (#[trigger] types@[k])@ == v@[k].0@,
                    decreases v@.len() - i,
                {
                    types.push(v[i].0.duplicate());
                    i = i + 1;
                }
                proof {
                    let s = v@.map_values(|p: (Type, bool)| (p.0@, p.1));
                    assert(s.map_values(|p: (TypeView, bool)| p.0) =~= types_view(types@));
                }
                Some(types)
            },
        }
    }
}

/// The operation of `op` on one argument of the type `a`.
pub(crate) fn unary(op: Operator, a: Type, output: Type) -> (r: OperatorFunction)
    ensures
        r@ == operation(op, seq![a@], output@),
{
    let v = vec![a];
    proof {
        assert(types_view(v@) =~= seq![v@[0]@]);
    }
    OperatorFunction::new(op, v, output)
}

/// The operation of `op` on two arguments of the types `a` and `b`.
pub(crate) fn binary(op: Operator, a: Type, b: Type, output: Type) -> (r: OperatorFunction)
    ensures
        r@ == operation(op, seq![a@, b@], output@),
{
    let v = vec![a, b];
    proof {
        assert(types_view(v@) =~= seq![v@[0]@, v@[1]@]);
    }
    OperatorFunction::new(op, v, output)
}

/// Every operation: those of each operator, in the order of the tables of
/// the modules below.
pub open spec fn all_operations() -> Seq<OperatorFunctionView> {
    add::operations() + cmp::operations() + modulo::operations() + sub::operations() + mul::operations()
        + div::operations() + len::operations() + inv::operations()
}

/// Every operation, in the order of `all_operations`.
pub fn get_all() -> (r: Vec<OperatorFunction>)
    ensures
        operations_view(r@) == all_operations(),
{
    let mut r = add::get_all();
    let mut c = cmp::get_all();
    let mut o = modulo::get_all();
    let mut s = sub::get_all();
    let mut m = mul::get_all();
    let mut d = div::get_all();
    let mut l = len::get_all();
    let mut i = inv::get_all();
    let ghost (v1, v2, v3, v4, v5, v6, v7, v8) = (r@, c@, o@, s@, m@, d@, l@, i@);
    r.append(&mut c);
    r.append(&mut o);
    r.append(&mut s);
    r.append(&mut m);
    r.append(&mut d);
    r.append(&mut l);
    r.append(&mut i);
    proof {
        assert(r@ == v1 + v2 + v3 + v4 + v5 + v6 + v7 + v8);
        assert(operations_view(r@) =~= operations_view(v1) + operations_view(v2) + operations_view(v3)
            + operations_view(v4) + operations_view(v5) + operations_view(v6) + operations_view(v7)
            + operations_view(v8));
    }
    r
}

/// Whether an operation has the shape and the types its operator calls
/// for: it is the function named `@` and the operator's name, of no module
/// and no owner; `!` and `#` take one argument and the other operators
/// two, none by reference; the comparisons and the logical operators give
/// a boolean; `+` gives a string exactly when one of its arguments is a
/// string, a number on two numbers and a boolean on two booleans; `-`,
/// `*`, `/` and `%` give a number on two numbers; `#` gives a number.
pub open spec fn well_typed(op: OperatorFunctionView) -> bool {
    let o = op.operator;
    let out = op.signature.output_type;
    &&& op.signature.name == "@"@ + o.name()
    &&& op.signature.module is None
    &&& op.signature.owner_type is None
    &&& op.signature.input_types matches Some(ins) && {
        &&& ins.len() == (if o == Operator::Inv || o == Operator::Len { 1int } else { 2int })
        &&& forall|i: int| 0 <= i < ins.len() ==> !(#[trigger] ins[i]).1
        &&& (o == Operator::Eq || o == Operator::Gr || o == Operator::Ge || o == Operator::Lw || o == Operator::Le
            || o == Operator::And || o == Operator::Or || o == Operator::Inv) ==> out == Some(TypeView::Boolean)
        &&& o == Operator::Add ==> (out == Some(TypeView::String) <==> (ins[0].0 == TypeView::String || ins[1].0 == TypeView::String))
        &&& o == Operator::Add && ins[0].0 == TypeView::Number && ins[1].0 == TypeView::Number ==> out == Some(TypeView::Number)
        &&& o == Operator::Add && ins[0].0 == TypeView::Boolean && ins[1].0 == TypeView::Boolean ==> out == Some(TypeView::Boolean)
        &&& (o == Operator::Sub || o == Operator::Mul || o == Operator::Div || o == Operator::Mod)
            && ins[0].0 == TypeView::Number && ins[1].0 == TypeView::Number ==> out == Some(TypeView::Number)
        &&& o == Operator::Len ==> out == Some(TypeView::Number)
    }
}

/// An operation built by `operation` with the arity of its operator is
/// named and shaped as `well_typed` asks.
proof fn lemma_operation_shape(o: Operator, inputs: Seq<TypeView>, output: TypeView)
    requires
        inputs.len() == (if o == Operator::Inv || o == Operator::Len { 1int } else { 2int }),
    ensures
        ({
            let op = operation(o, inputs, output);
            &&& op.signature.input_types matches Some(ins) && ins.len() == inputs.len()
                && (forall|i: int| 0 <= i < ins.len() ==> (#[trigger] ins[i]) == (inputs[i], false))
        }),
{
}

/// Every operation of the language has the shape and the types its
/// operator calls for (see `well_typed`).
pub proof fn lemma_operations_well_typed(k: int)
    requires
        0 <= k < all_operations().len(),
    ensures
        well_typed(all_operations()[k]),
{
    let a = add::operations();
    let c = cmp::operations();
    let o = modulo::operations();
    let s = sub::operations();
    let m = mul::operations();
    let d = div::operations();
    let l = len::operations();
    let i = inv::operations();
    assert forall|q: int| 0 <= q < a.len() implies #[trigger] well_typed(a[q]) by {
        lemma_operation_shape(a[q].operator, seq![a[q].signature.input_types.unwrap()[0].0, a[q].signature.input_types.unwrap()[1].0], a[q].signature.output_type.unwrap());
    }
    assert forall|q: int| 0 <= q < c.len() implies #[trigger] well_typed(c[q]) by {}
    assert forall|q: int| 0 <= q < o.len() implies #[trigger] well_typed(o[q]) by {}
    assert forall|q: int| 0 <= q < s.len() implies #[trigger] well_typed(s[q]) by {}
    assert forall|q: int| 0 <= q < m.len() implies #[trigger] well_typed(m[q]) by {}
    assert forall|q: int| 0 <= q < d.len() implies #[trigger] well_typed(d[q]) by {}
    assert forall|q: int| 0 <= q < l.len() implies #[trigger] well_typed(l[q]) by {}
    assert forall|q: int| 0 <= q < i.len() implies #[trigger] well_typed(i[q]) by {}
    let all = all_operations();
    assert(all == a + c + o + s + m + d + l + i);
    let n1: int = a.len() + 0int;
    let n2: int = n1 + c.len();
    let n3: int = n2 + o.len();
    let n4: int = n3 + s.len();
    let n5: int = n4 + m.len();
    let n6: int = n5 + d.len();
    let n7: int = n6 + l.len();
    if k < n1 { assert(all[k] == a[k]); }
    else if k < n2 { assert(all[k] == c[k - n1]); }
    else if k < n3 { assert(all[k] == o[k - n2]); }
    else if k < n4 { assert(all[k] == s[k - n3]); }
    else if k < n5 { assert(all[k] == m[k - n4]); }
    else if k < n6 { assert(all[k] == d[k - n5]); }
    else if k < n7 { assert(all[k] == l[k - n6]); }
    else { assert(all[k] == i[k - n7]); }
}

} // verus!
