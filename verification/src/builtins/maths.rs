//! The built-in module `maths`: mathematical functions.

use vstd::prelude::*;
use crate::builtins::{BuiltinTypes, BuiltInFunction};
use crate::sloth::types::{Type, TypeView};
use crate::sloth::function::FunctionSignatureView;
use crate::text::{str_eq, string_of, concat3};

verus! {

/// The names of the built-ins of the module, in order.
pub open spec fn builtins() -> Seq<Seq<char>> {
    seq!["pow"@, "sqrt"@]
}

/// Whether the built-in `name` of the module is a function or a structure.
pub open spec fn kind(name: Seq<char>) -> Option<BuiltinTypes> {
    if name == "pow"@ { Some(BuiltinTypes::Function) }
    else if name == "sqrt"@ { Some(BuiltinTypes::Function) }
    else { None }
}

/// The signature of the built-in function `name` of the module.
pub open spec fn signature(name: Seq<char>) -> FunctionSignatureView {
    if name == "pow"@ { FunctionSignatureView { module: Some("maths"@), name: "pow"@, owner_type: Some(TypeView::Number), input_types: None, output_type: Some(TypeView::Number) } }
    else { FunctionSignatureView { module: Some("maths"@), name: "sqrt"@, owner_type: Some(TypeView::Number), input_types: None, output_type: Some(TypeView::Number) } }
}

/// Whether the built-in `builtin` is a function or a structure; an error
/// message when the module has no such built-in.
pub fn get_type(builtin: &String) -> (r: Result<BuiltinTypes, String>)
    ensures
        match r {
            Ok(k) => kind(builtin@) == Some(k),
            Err(msg) => kind(builtin@) is None && msg@ == "Builtin '"@ + builtin@ + "' not found in module '"@ + "maths"@ + "'"@,
        },
{
    if str_eq(builtin.as_str(), "pow") { Ok(BuiltinTypes::Function) }
    else if str_eq(builtin.as_str(), "sqrt") { Ok(BuiltinTypes::Function) }
    else {
        let mut msg = concat3("Builtin '", builtin.as_str(), "' not found in module '");
        msg.append("maths");
        msg.append("'");
        Err(msg)
    }
}

/// The built-in function `f_name` of the module.
pub fn get_function(f_name: String) -> (r: BuiltInFunction)
    requires
        kind(f_name@) == Some(BuiltinTypes::Function),
    ensures
        r.signature@ == signature(f_name@),
{
    if str_eq(f_name.as_str(), "pow") {
        BuiltInFunction::new("pow", Some("maths"), Some(Type::Number), Type::Number)
    }
    else {
        BuiltInFunction::new("sqrt", Some("maths"), Some(Type::Number), Type::Number)
    }
}

} // verus!
