//! The built-in module `numbers`: methods of numbers.

use vstd::prelude::*;
use crate::builtins::{BuiltinTypes, BuiltInFunction};
use crate::sloth::types::{Type, TypeView};
use crate::sloth::function::FunctionSignatureView;
use crate::text::{str_eq, string_of, concat3};

verus! {

/// The names of the built-ins of the module, in order.
pub open spec fn builtins() -> Seq<Seq<char>> {
    seq!["to_string"@, "floor"@, "ceil"@, "round"@]
}

/// Whether the built-in `name` of the module is a function or a structure.
pub open spec fn kind(name: Seq<char>) -> Option<BuiltinTypes> {
    if name == "to_string"@ { Some(BuiltinTypes::Function) }
    else if name == "floor"@ { Some(BuiltinTypes::Function) }
    else if name == "ceil"@ { Some(BuiltinTypes::Function) }
    else if name == "round"@ { Some(BuiltinTypes::Function) }
    else { None }
}

/// The signature of the built-in function `name` of the module.
pub open spec fn signature(name: Seq<char>) -> FunctionSignatureView {
    if name == "to_string"@ { FunctionSignatureView { module: Some("numbers"@), name: "to_string"@, owner_type: Some(TypeView::Number), input_types: None, output_type: Some(TypeView::String) } }
    else if name == "floor"@ { FunctionSignatureView { module: Some("numbers"@), name: "floor"@, owner_type: Some(TypeView::Number), input_types: None, output_type: Some(TypeView::Number) } }
    else if name == "ceil"@ { FunctionSignatureView { module: Some("numbers"@), name: "ceil"@, owner_type: Some(TypeView::Number), input_types: None, output_type: Some(TypeView::Number) } }
    else { FunctionSignatureView { module: Some("numbers"@), name: "round"@, owner_type: Some(TypeView::Number), input_types: None, output_type: Some(TypeView::Number) } }
}

/// Whether the built-in `builtin` is a function or a structure; an error
/// message when the module has no such built-in.
pub fn get_type(builtin: &String) -> (r: Result<BuiltinTypes, String>)
    ensures
        match r {
            Ok(k) => kind(builtin@) == Some(k),
            Err(msg) => kind(builtin@) is None && msg@ == "Builtin '"@ + builtin@ + "' not found in module '"@ + "numbers"@ + "'"@,
        },
{
    if str_eq(builtin.as_str(), "to_string") { Ok(BuiltinTypes::Function) }
    else if str_eq(builtin.as_str(), "floor") { Ok(BuiltinTypes::Function) }
    else if str_eq(builtin.as_str(), "ceil") { Ok(BuiltinTypes::Function) }
    else if str_eq(builtin.as_str(), "round") { Ok(BuiltinTypes::Function) }
    else {
        let mut msg = concat3("Builtin '", builtin.as_str(), "' not found in module '");
        msg.append("numbers");
        msg.append("'");
        Err(msg)
    }
}

/// The built-in function `f_name` of the module.
pub fn get_function(f_name: String) -> (r: BuiltInFunction)
    requires
        kind(f_name@) == Some(BuiltinTypes::Function),
    ensures
        r.signature@ == signature(f_name@),
{
    if str_eq(f_name.as_str(), "to_string") {
        BuiltInFunction::new("to_string", Some("numbers"), Some(Type::Number), Type::String)
    }
    else if str_eq(f_name.as_str(), "floor") {
        BuiltInFunction::new("floor", Some("numbers"), Some(Type::Number), Type::Number)
    }
    else if str_eq(f_name.as_str(), "ceil") {
        BuiltInFunction::new("ceil", Some("numbers"), Some(Type::Number), Type::Number)
    }
    else {
        BuiltInFunction::new("round", Some("numbers"), Some(Type::Number), Type::Number)
    }
}

} // verus!
