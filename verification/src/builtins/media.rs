//! The built-in module `media`: windows and drawing.

use vstd::prelude::*;
use crate::builtins::{BuiltinTypes, BuiltInFunction};
use crate::sloth::types::{Type, TypeView};
use crate::sloth::function::FunctionSignatureView;
use crate::sloth::structure::{StructSignature, StructSignatureView};
use crate::text::{str_eq, string_of, concat3};
use crate::errors::{Error, ErrMsg, ErrKind, error_spec};

verus! {

/// The names of the built-ins of the module, in order.
pub open spec fn builtins() -> Seq<Seq<char>> {
    seq!["Canvas"@, "check_event"@, "update"@, "set_pixel"@, "set_rect"@]
}

/// Whether the built-in `name` of the module is a function or a structure.
pub open spec fn kind(name: Seq<char>) -> Option<BuiltinTypes> {
    if name == "Canvas"@ { Some(BuiltinTypes::Structure) }
    else if name == "check_event"@ { Some(BuiltinTypes::Function) }
    else if name == "update"@ { Some(BuiltinTypes::Function) }
    else if name == "set_pixel"@ { Some(BuiltinTypes::Function) }
    else if name == "set_rect"@ { Some(BuiltinTypes::Function) }
    else { None }
}

/// The signature of the built-in function `name` of the module.
pub open spec fn signature(name: Seq<char>) -> FunctionSignatureView {
    if name == "check_event"@ { FunctionSignatureView { module: Some("media"@), name: "check_event"@, owner_type: None, input_types: None, output_type: Some(TypeView::Boolean) } }
    else if name == "update"@ { FunctionSignatureView { module: Some("media"@), name: "update"@, owner_type: Some(TypeView::Object("Canvas"@)), input_types: None, output_type: Some(TypeView::Number) } }
    else if name == "set_pixel"@ { FunctionSignatureView { module: Some("media"@), name: "set_pixel"@, owner_type: Some(TypeView::Object("Canvas"@)), input_types: None, output_type: Some(TypeView::Number) } }
    else { FunctionSignatureView { module: Some("media"@), name: "set_rect"@, owner_type: Some(TypeView::Object("Canvas"@)), input_types: None, output_type: Some(TypeView::Number) } }
}

/// The signature of the built-in structure `name` of the module, and the
/// built-ins it requires.
pub open spec fn structure(name: Seq<char>) -> (StructSignatureView, Seq<Seq<char>>) {
    (StructSignatureView { module: Some("media"@), name: "Canvas"@ }, seq!["update"@, "set_pixel"@])
}

/// Whether the built-in `builtin` is a function or a structure; an error
/// message when the module has no such built-in.
pub fn get_type(builtin: &String) -> (r: Result<BuiltinTypes, String>)
    ensures
        match r {
            Ok(k) => kind(builtin@) == Some(k),
            Err(msg) => kind(builtin@) is None && msg@ == "Builtin '"@ + builtin@ + "' not found in module '"@ + "media"@ + "'"@,
        },
{
    if str_eq(builtin.as_str(), "Canvas") { Ok(BuiltinTypes::Structure) }
    else if str_eq(builtin.as_str(), "check_event") { Ok(BuiltinTypes::Function) }
    else if str_eq(builtin.as_str(), "update") { Ok(BuiltinTypes::Function) }
    else if str_eq(builtin.as_str(), "set_pixel") { Ok(BuiltinTypes::Function) }
    else if str_eq(builtin.as_str(), "set_rect") { Ok(BuiltinTypes::Function) }
    else {
        let mut msg = concat3("Builtin '", builtin.as_str(), "' not found in module '");
        msg.append("media");
        msg.append("'");
        Err(msg)
    }
}

/// The built-in function `f_name` of the module.
pub fn get_function(f_name: String) -> (r: BuiltInFunction)
    requires
        kind(f_name@) == Some(BuiltinTypes::Function),
    ensures
        r.signature@ == signature(f_name@),
{
    if str_eq(f_name.as_str(), "check_event") {
        BuiltInFunction::new("check_event", Some("media"), None, Type::Boolean)
    }
    else if str_eq(f_name.as_str(), "update") {
        BuiltInFunction::new("update", Some("media"), Some(Type::Object(string_of("Canvas"))), Type::Number)
    }
    else if str_eq(f_name.as_str(), "set_pixel") {
        BuiltInFunction::new("set_pixel", Some("media"), Some(Type::Object(string_of("Canvas"))), Type::Number)
    }
    else {
        BuiltInFunction::new("set_rect", Some("media"), Some(Type::Object(string_of("Canvas"))), Type::Number)
    }
}

/// The signature of the built-in structure `s_name` of the module, along
/// with the built-ins it requires.
pub fn get_struct(s_name: String) -> (r: (StructSignature, Vec<String>))
    requires
        kind(s_name@) == Some(BuiltinTypes::Structure),
    ensures
        r.0@ == structure(s_name@).0,
        r.1@.map_values(|s: String| s@) == structure(s_name@).1,
{
    let mut reqs: Vec<String> = Vec::new();
        reqs.push(string_of("update"));
        reqs.push(string_of("set_pixel"));
        let r = (StructSignature::new(Some(string_of("media")), string_of("Canvas")), reqs);
        assert(r.1@.map_values(|s: String| s@) =~= structure(s_name@).1);
        r
}

/// The events that `check_event` can be asked to look for.
#[derive(Clone, Copy, Debug, PartialEq, Eq, Structural)]
pub enum EventKind {
    /// The window was asked to close.
    Quit,
}

/// The event that `check_event` is asked to look for, by the name a
/// program gives it: `EVENT_QUIT` is the only one; any other name is an
/// invalid argument.
pub fn requested_event(name: &str) -> (r: Result<EventKind, Error>)
    ensures
        match r {
            Ok(k) => name@ == "EVENT_QUIT"@ && k == EventKind::Quit,
            Err(e) => name@ != "EVENT_QUIT"@
                && e@ == error_spec((ErrKind::InvalidArguments, "Event '"@ + name@ + "' does not exists"@), None),
        },
{
    if str_eq(name, "EVENT_QUIT") {
        Ok(EventKind::Quit)
    } else {
        Err(Error::new(ErrMsg::InvalidArguments(concat3("Event '", name, "' does not exists")), None))
    }
}

} // verus!
