//! The built-in module `lists`: methods of lists.

use vstd::prelude::*;
use crate::builtins::{BuiltinTypes, BuiltInFunction};
use crate::sloth::types::{Type, TypeView};
use crate::sloth::function::FunctionSignatureView;
use crate::text::{str_eq, string_of, concat3};

verus! {

/// The names of the built-ins of the module, in order.
pub open spec fn builtins() -> Seq<Seq<char>> {
    seq!["set"@, "get"@, "push"@, "pull"@, "len"@]
}

/// Whether the built-in `name` of the module is a function or a structure.
pub open spec fn kind(name: Seq<char>) -> Option<BuiltinTypes> {
    if name == "set"@ { Some(BuiltinTypes::Function) }
    else if name == "get"@ { Some(BuiltinTypes::Function) }
    else if name == "push"@ { Some(BuiltinTypes::Function) }
    else if name == "pull"@ { Some(BuiltinTypes::Function) }
    else if name == "len"@ { Some(BuiltinTypes::Function) }
    else { None }
}

/// The signature of the built-in function `name` of the module.
pub open spec fn signature(name: Seq<char>) -> FunctionSignatureView {
    if name == "set"@ { FunctionSignatureView { module: Some("lists"@), name: "set"@, owner_type: Some(TypeView::List(Box::new(TypeView::Any))), input_types: None, output_type: Some(TypeView::Number) } }
    else if name == "get"@ { FunctionSignatureView { module: Some("lists"@), name: "get"@, owner_type: Some(TypeView::List(Box::new(TypeView::Any))), input_types: None, output_type: Some(TypeView::Any) } }
    else if name == "push"@ { FunctionSignatureView { module: Some("lists"@), name: "push"@, owner_type: Some(TypeView::List(Box::new(TypeView::Any))), input_types: None, output_type: Some(TypeView::Number) } }
    else if name == "pull"@ { FunctionSignatureView { module: Some("lists"@), name: "pull"@, owner_type: Some(TypeView::List(Box::new(TypeView::Any))), input_types: None, output_type: Some(TypeView::Any) } }
    else { FunctionSignatureView { module: Some("lists"@), name: "len"@, owner_type: Some(TypeView::List(Box::new(TypeView::Any))), input_types: None, output_type: Some(TypeView::Number) } }
}

/// Whether the built-in `builtin` is a function or a structure; an error
/// message when the module has no such built-in.
pub fn get_type(builtin: &String) -> (r: Result<BuiltinTypes, String>)
    ensures
        match r {
            Ok(k) => kind(builtin@) == Some(k),
            Err(msg) => kind(builtin@) is None && msg@ == "Builtin '"@ + builtin@ + "' not found in module '"@ + "lists"@ + "'"@,
        },
{
    if str_eq(builtin.as_str(), "set") { Ok(BuiltinTypes::Function) }
    else if str_eq(builtin.as_str(), "get") { Ok(BuiltinTypes::Function) }
    else if str_eq(builtin.as_str(), "push") { Ok(BuiltinTypes::Function) }
    else if str_eq(builtin.as_str(), "pull") { Ok(BuiltinTypes::Function) }
    else if str_eq(builtin.as_str(), "len") { Ok(BuiltinTypes::Function) }
    else {
        let mut msg = concat3("Builtin '", builtin.as_str(), "' not found in module '");
        msg.append("lists");
        msg.append("'");
        Err(msg)
    }
}

/// The built-in function `f_name` of the module.
pub fn get_function(f_name: String) -> (r: BuiltInFunction)
    requires
        kind(f_name@) == Some(BuiltinTypes::Function),
    ensures
        r.signature@ == signature(f_name@),
{
    if str_eq(f_name.as_str(), "set") {
        BuiltInFunction::new("set", Some("lists"), Some(Type::List(Box::new(Type::Any))), Type::Number)
    }
    else if str_eq(f_name.as_str(), "get") {
        BuiltInFunction::new("get", Some("lists"), Some(Type::List(Box::new(Type::Any))), Type::Any)
    }
    else if str_eq(f_name.as_str(), "push") {
        BuiltInFunction::new("push", Some("lists"), Some(Type::List(Box::new(Type::Any))), Type::Number)
    }
    else if str_eq(f_name.as_str(), "pull") {
        BuiltInFunction::new("pull", Some("lists"), Some(Type::List(Box::new(Type::Any))), Type::Any)
    }
    else {
        BuiltInFunction::new("len", Some("lists"), Some(Type::List(Box::new(Type::Any))), Type::Number)
    }
}

} // verus!
