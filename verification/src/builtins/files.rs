//! The built-in module `files`: reading and writing files.

use vstd::prelude::*;
use crate::builtins::{BuiltinTypes, BuiltInFunction};
use crate::sloth::types::{Type, TypeView};
use crate::sloth::function::FunctionSignatureView;
use crate::text::{str_eq, string_of, concat3};

verus! {

/// The names of the built-ins of the module, in order.
pub open spec fn builtins() -> Seq<Seq<char>> {
    seq!["load"@, "save"@]
}

/// Whether the built-in `name` of the module is a function or a structure.
pub open spec fn kind(name: Seq<char>) -> Option<BuiltinTypes> {
    if name == "load"@ { Some(BuiltinTypes::Function) }
    else if name == "save"@ { Some(BuiltinTypes::Function) }
    else { None }
}

/// The signature of the built-in function `name` of the module.
pub open spec fn signature(name: Seq<char>) -> FunctionSignatureView {
    if name == "load"@ { FunctionSignatureView { module: Some("files"@), name: "load"@, owner_type: None, input_types: None, output_type: Some(TypeView::String) } }
    else { FunctionSignatureView { module: Some("files"@), name: "save"@, owner_type: None, input_types: None, output_type: Some(TypeView::Number) } }
}

/// Whether the built-in `builtin` is a function or a structure; an error
/// message when the module has no such built-in.
pub fn get_type(builtin: &String) -> (r: Result<BuiltinTypes, String>)
    ensures
        match r {
            Ok(k) => kind(builtin@) == Some(k),
            Err(msg) => kind(builtin@) is None && msg@ == "Builtin '"@ + builtin@ + "' not found in module '"@ + "files"@ + "'"@,
        },
{
    if str_eq(builtin.as_str(), "load") { Ok(BuiltinTypes::Function) }
    else if str_eq(builtin.as_str(), "save") { Ok(BuiltinTypes::Function) }
    else {
        let mut msg = concat3("Builtin '", builtin.as_str(), "' not found in module '");
        msg.append("files");
        msg.append("'");
        Err(msg)
    }
}

/// The built-in function `f_name` of the module.
pub fn get_function(f_name: String) -> (r: BuiltInFunction)
    requires
        kind(f_name@) == Some(BuiltinTypes::Function),
    ensures
        r.signature@ == signature(f_name@),
{
    if str_eq(f_name.as_str(), "load") {
        BuiltInFunction::new("load", Some("files"), None, Type::String)
    }
    else {
        BuiltInFunction::new("save", Some("files"), None, Type::Number)
    }
}

} // verus!
