//! Types of the values of the language.

use vstd::prelude::*;

verus! {

/// The type of a value.
pub enum Type {
    Any,
    Number,
    Boolean,
    String,
    List(Box<Type>),
    Object(String),
}

/// The mathematical value of a [`Type`].
pub enum TypeView {
    Any,
    Number,
    Boolean,
    String,
    List(Box<TypeView>),
    Object(Seq<char>),
}

/// The mathematical value of a type.
pub open spec fn type_view(t: Type) -> TypeView
    decreases t,
{
    match t {
        Type::Any => TypeView::Any,
        Type::Number => TypeView::Number,
        Type::Boolean => TypeView::Boolean,
        Type::String => TypeView::String,
        Type::List(inner) => TypeView::List(Box::new(type_view(*inner))),
        Type::Object(name) => TypeView::Object(name@),
    }
}

impl View for Type {
    type V = TypeView;

    open spec fn view(&self) -> TypeView {
        type_view(*self)
    }
}

impl Type {
    /// A copy of the type.
    pub fn duplicate(&self) -> (r: Type)
        ensures
            r == *self,
        decreases self,
    {
        match self {
            Type::Any => Type::Any,
            Type::Number => Type::Number,
            Type::Boolean => Type::Boolean,
            Type::String => Type::String,
            Type::List(inner) => Type::List(Box::new(inner.duplicate())),
            Type::Object(name) => Type::Object(name.clone()),
        }
    }

    /// Whether the two types are the same.
    pub fn same(&self, other: &Type) -> (r: bool)
        ensures
            r == (self@ == other@),
        decreases self,
    {
        match (self, other) {
            (Type::Any, Type::Any) => true,
            (Type::Number, Type::Number) => true,
            (Type::Boolean, Type::Boolean) => true,
            (Type::String, Type::String) => true,
            (Type::List(a), Type::List(b)) => a.same(b),
            (Type::Object(a), Type::Object(b)) => *a == *b,
            _ => false,
        }
    }
}

/// The view of an optional string.
pub open spec fn opt_view(o: Option<String>) -> Option<Seq<char>> {
    match o {
        Some(s) => Some(s@),
        None => None,
    }
}

/// The view of an optional type.
pub open spec fn opt_type_view(o: Option<Type>) -> Option<TypeView> {
    match o {
        Some(t) => Some(t@),
        None => None,
    }
}

/// A copy of an optional string.
pub fn clone_opt(o: &Option<String>) -> (r: Option<String>)
    ensures
        r == *o,
{
    match o {
        Some(s) => Some(s.clone()),
        None => None,
    }
}

/// Whether two optional strings are the same.
pub fn same_opt(a: &Option<String>, b: &Option<String>) -> (r: bool)
    ensures
        r == (opt_view(*a) == opt_view(*b)),
{
    match (a, b) {
        (Some(x), Some(y)) => *x == *y,
        (None, None) => true,
        _ => false,
    }
}

/// Whether two optional types are the same.
pub fn same_opt_type(a: &Option<Type>, b: &Option<Type>) -> (r: bool)
    ensures
        r == (opt_type_view(*a) == opt_type_view(*b)),
{
    match (a, b) {
        (Some(x), Some(y)) => x.same(y),
        (None, None) => true,
        _ => false,
    }
}

} // verus!
