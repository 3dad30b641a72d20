//! Structures defined in a program.

use vstd::prelude::*;
use crate::sloth::types::{Type, TypeView, opt_view};

verus! {

/// The signature of a structure: its module, if any, and its name.
pub struct StructSignature {
    pub module: Option<String>,
    pub name: String,
}

/// The mathematical value of a [`StructSignature`].
pub struct StructSignatureView {
    pub module: Option<Seq<char>>,
    pub name: Seq<char>,
}

impl View for StructSignature {
    type V = StructSignatureView;

    open spec fn view(&self) -> StructSignatureView {
        StructSignatureView { module: opt_view(self.module), name: self.name@ }
    }
}

impl StructSignature {
    pub fn new(module: Option<String>, name: String) -> (r: StructSignature)
        ensures
            r.module == module,
            r.name == name,
    {
        StructSignature { module, name }
    }
}

/// A structure defined in a source file: its signature and its fields,
/// each with its type.
pub struct CustomDefinition {
    pub signature: StructSignature,
    pub fields: Vec<(String, Type)>,
}

/// The mathematical value of a [`CustomDefinition`].
pub struct CustomDefinitionView {
    pub signature: StructSignatureView,
    pub fields: Seq<(Seq<char>, TypeView)>,
}

/// The view of the fields of a structure.
pub open spec fn fields_view(f: Seq<(String, Type)>) -> Seq<(Seq<char>, TypeView)> {
    f.map_values(|p: (String, Type)| (p.0@, p.1@))
}

impl View for CustomDefinition {
    type V = CustomDefinitionView;

    open spec fn view(&self) -> CustomDefinitionView {
        CustomDefinitionView { signature: self.signature@, fields: fields_view(self.fields@) }
    }
}

impl CustomDefinition {
    pub fn new(signature: StructSignature, fields: Vec<(String, Type)>) -> (r: CustomDefinition)
        ensures
            r.signature == signature,
            r.fields == fields,
    {
        CustomDefinition { signature, fields }
    }
}

} // verus!
