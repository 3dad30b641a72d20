//! The built-in module `clock`: time measurement.

use vstd::prelude::*;
use crate::builtins::{BuiltinTypes, BuiltInFunction};
use crate::sloth::types::{Type, TypeView};
use crate::sloth::function::FunctionSignatureView;
use crate::sloth::structure::{StructSignature, StructSignatureView};
use crate::text::{str_eq, string_of, concat3};

verus! {

/// The names of the built-ins of the module, in order.
pub open spec fn builtins() -> Seq<Seq<char>> {
    seq!["now"@, "since"@, "sleep"@, "Instant"@, "Duration"@]
}

/// Whether the built-in `name` of the module is a function or a structure.
pub open spec fn kind(name: Seq<char>) -> Option<BuiltinTypes> {
    if name == "now"@ { Some(BuiltinTypes::Function) }
    else if name == "since"@ { Some(BuiltinTypes::Function) }
    else if name == "sleep"@ { Some(BuiltinTypes::Function) }
    else if name == "Instant"@ { Some(BuiltinTypes::Structure) }
    else if name == "Duration"@ { Some(BuiltinTypes::Structure) }
    else { None }
}

/// The signature of the built-in function `name` of the module.
pub open spec fn signature(name: Seq<char>) -> FunctionSignatureView {
    if name == "now"@ { FunctionSignatureView { module: Some("clock"@), name: "now"@, owner_type: None, input_types: None, output_type: Some(TypeView::Object("Instant"@)) } }
    else if name == "since"@ { FunctionSignatureView { module: Some("clock"@), name: "since"@, owner_type: Some(TypeView::Object("Instant"@)), input_types: None, output_type: Some(TypeView::Object("Duration"@)) } }
    else { FunctionSignatureView { module: Some("clock"@), name: "sleep"@, owner_type: None, input_types: None, output_type: Some(TypeView::Number) } }
}

/// The signature of the built-in structure `name` of the module, and the
/// built-ins it requires.
pub open spec fn structure(name: Seq<char>) -> (StructSignatureView, Seq<Seq<char>>) {
    if name == "Instant"@ { (StructSignatureView { module: Some("file"@), name: "Instant"@ }, seq![]) }
    else { (StructSignatureView { module: Some("file"@), name: "Duration"@ }, seq!["since"@]) }
}

/// Whether the built-in `builtin` is a function or a structure; an error
/// message when the module has no such built-in.
pub fn get_type(builtin: &String) -> (r: Result<BuiltinTypes, String>)
    ensures
        match r {
            Ok(k) => kind(builtin@) == Some(k),
            Err(msg) => kind(builtin@) is None && msg@ == "Builtin '"@ + builtin@ + "' not found in module '"@ + "files"@ + "'"@,
        },
{
    if str_eq(builtin.as_str(), "now") { Ok(BuiltinTypes::Function) }
    else if str_eq(builtin.as_str(), "since") { Ok(BuiltinTypes::Function) }
    else if str_eq(builtin.as_str(), "sleep") { Ok(BuiltinTypes::Function) }
    else if str_eq(builtin.as_str(), "Instant") { Ok(BuiltinTypes::Structure) }
    else if str_eq(builtin.as_str(), "Duration") { Ok(BuiltinTypes::Structure) }
    else {
        let mut msg = concat3("Builtin '", builtin.as_str(), "' not found in module '");
        msg.append("files");
        msg.append("'");
        Err(msg)
    }
}

/// The built-in function `f_name` of the module.
pub fn get_function(f_name: String) -> (r: BuiltInFunction)
    requires
        kind(f_name@) == Some(BuiltinTypes::Function),
    ensures
        r.signature@ == signature(f_name@),
{
    if str_eq(f_name.as_str(), "now") {
        BuiltInFunction::new("now", Some("clock"), None, Type::Object(string_of("Instant")))
    }
    else if str_eq(f_name.as_str(), "since") {
        BuiltInFunction::new("since", Some("clock"), Some(Type::Object(string_of("Instant"))), Type::Object(string_of("Duration")))
    }
    else {
        BuiltInFunction::new("sleep", Some("clock"), None, Type::Number)
    }
}

/// The signature of the built-in structure `s_name` of the module, along
/// with the built-ins it requires.
pub fn get_struct(s_name: String) -> (r: (StructSignature, Vec<String>))
    requires
        kind(s_name@) == Some(BuiltinTypes::Structure),
    ensures
        r.0@ == structure(s_name@).0,
        r.1@.map_values(|s: String| s@) == structure(s_name@).1,
{
    if str_eq(s_name.as_str(), "Instant") {
        let mut reqs: Vec<String> = Vec::new();
        let r = (StructSignature::new(Some(string_of("file")), string_of("Instant")), reqs);
        assert(r.1@.map_values(|s: String| s@) =~= structure(s_name@).1);
        r
    }
    else {
        let mut reqs: Vec<String> = Vec::new();
        reqs.push(string_of("since"));
        let r = (StructSignature::new(Some(string_of("file")), string_of("Duration")), reqs);
        assert(r.1@.map_values(|s: String| s@) =~= structure(s_name@).1);
        r
    }
}

} // verus!
