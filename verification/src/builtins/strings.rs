//! The built-in module `strings`: methods of strings.

use vstd::prelude::*;
use crate::builtins::{BuiltinTypes, BuiltInFunction};
use crate::sloth::types::{Type, TypeView};
use crate::sloth::function::FunctionSignatureView;
use crate::text::{str_eq, string_of, concat3};

verus! {

/// The names of the built-ins of the module, in order.
pub open spec fn builtins() -> Seq<Seq<char>> {
    seq!["to_num"@, "len"@, "insert"@, "push"@, "remove"@, "split"@, "get"@]
}

/// Whether the built-in `name` of the module is a function or a structure.
pub open spec fn kind(name: Seq<char>) -> Option<BuiltinTypes> {
    if name == "to_num"@ { Some(BuiltinTypes::Function) }
    else if name == "len"@ { Some(BuiltinTypes::Function) }
    else if name == "insert"@ { Some(BuiltinTypes::Function) }
    else if name == "push"@ { Some(BuiltinTypes::Function) }
    else if name == "remove"@ { Some(BuiltinTypes::Function) }
    else if name == "split"@ { Some(BuiltinTypes::Function) }
    else if name == "get"@ { Some(BuiltinTypes::Function) }
    else { None }
}

/// The signature of the built-in function `name` of the module.
pub open spec fn signature(name: Seq<char>) -> FunctionSignatureView {
    if name == "to_num"@ { FunctionSignatureView { module: Some("strings"@), name: "to_num"@, owner_type: Some(TypeView::String), input_types: None, output_type: Some(TypeView::Number) } }
    else if name == "len"@ { FunctionSignatureView { module: Some("strings"@), name: "len"@, owner_type: Some(TypeView::String), input_types: None, output_type: Some(TypeView::Number) } }
    else if name == "insert"@ { FunctionSignatureView { module: Some("strings"@), name: "insert"@, owner_type: Some(TypeView::String), input_types: None, output_type: Some(TypeView::Number) } }
    else if name == "push"@ { FunctionSignatureView { module: Some("strings"@), name: "push"@, owner_type: Some(TypeView::String), input_types: None, output_type: Some(TypeView::Number) } }
    else if name == "remove"@ { FunctionSignatureView { module: Some("strings"@), name: "remove"@, owner_type: Some(TypeView::String), input_types: None, output_type: Some(TypeView::Number) } }
    else if name == "split"@ { FunctionSignatureView { module: Some("strings"@), name: "split"@, owner_type: Some(TypeView::String), input_types: None, output_type: Some(TypeView::List(Box::new(TypeView::String))) } }
    else { FunctionSignatureView { module: Some("strings"@), name: "get"@, owner_type: Some(TypeView::String), input_types: None, output_type: Some(TypeView::String) } }
}

/// Whether the built-in `builtin` is a function or a structure; an error
/// message when the module has no such built-in.
pub fn get_type(builtin: &String) -> (r: Result<BuiltinTypes, String>)
    ensures
        match r {
            Ok(k) => kind(builtin@) == Some(k),
            Err(msg) => kind(builtin@) is None && msg@ == "Builtin '"@ + builtin@ + "' not found in module '"@ + "strings"@ + "'"@,
        },
{
    if str_eq(builtin.as_str(), "to_num") { Ok(BuiltinTypes::Function) }
    else if str_eq(builtin.as_str(), "len") { Ok(BuiltinTypes::Function) }
    else if str_eq(builtin.as_str(), "insert") { Ok(BuiltinTypes::Function) }
    else if str_eq(builtin.as_str(), "push") { Ok(BuiltinTypes::Function) }
    else if str_eq(builtin.as_str(), "remove") { Ok(BuiltinTypes::Function) }
    else if str_eq(builtin.as_str(), "split") { Ok(BuiltinTypes::Function) }
    else if str_eq(builtin.as_str(), "get") { Ok(BuiltinTypes::Function) }
    else {
        let mut msg = concat3("Builtin '", builtin.as_str(), "' not found in module '");
        msg.append("strings");
        msg.append("'");
        Err(msg)
    }
}

/// The built-in function `f_name` of the module.
pub fn get_function(f_name: String) -> (r: BuiltInFunction)
    requires
        kind(f_name@) == Some(BuiltinTypes::Function),
    ensures
        r.signature@ == signature(f_name@),
{
    if str_eq(f_name.as_str(), "to_num") {
        BuiltInFunction::new("to_num", Some("strings"), Some(Type::String), Type::Number)
    }
    else if str_eq(f_name.as_str(), "len") {
        BuiltInFunction::new("len", Some("strings"), Some(Type::String), Type::Number)
    }
    else if str_eq(f_name.as_str(), "insert") {
        BuiltInFunction::new("insert", Some("strings"), Some(Type::String), Type::Number)
    }
    else if str_eq(f_name.as_str(), "push") {
        BuiltInFunction::new("push", Some("strings"), Some(Type::String), Type::Number)
    }
    else if str_eq(f_name.as_str(), "remove") {
        BuiltInFunction::new("remove", Some("strings"), Some(Type::String), Type::Number)
    }
    else if str_eq(f_name.as_str(), "split") {
        BuiltInFunction::new("split", Some("strings"), Some(Type::String), Type::List(Box::new(Type::String)))
    }
    else {
        BuiltInFunction::new("get", Some("strings"), Some(Type::String), Type::String)
    }
}

} // verus!
