//! Signatures of functions, and the functions defined in a program.

use vstd::prelude::*;
use crate::sloth::types::{Type, TypeView, opt_view, opt_type_view};
use crate::sloth::statement::{Statement, StatementView, statements_view};

verus! {

/// The signature of a function: its module, name, owner type (for a
/// method), input types (each with whether it is passed by reference) and
/// output type. Parts that are not known yet are `None`.
pub struct FunctionSignature {
    pub module: Option<String>,
    pub name: String,
    pub owner_type: Option<Type>,
    pub input_types: Option<Vec<(Type, bool)>>,
    pub output_type: Option<Type>,
}

/// The mathematical value of a [`FunctionSignature`].
pub struct FunctionSignatureView {
    pub module: Option<Seq<char>>,
    pub name: Seq<char>,
    pub owner_type: Option<TypeView>,
    pub input_types: Option<Seq<(TypeView, bool)>>,
    pub output_type: Option<TypeView>,
}

/// The view of the input types of a function.
pub open spec fn inputs_view(o: Option<Vec<(Type, bool)>>) -> Option<Seq<(TypeView, bool)>> {
    match o {
        Some(v) => Some(v@.map_values(|p: (Type, bool)| (p.0@, p.1))),
        None => None,
    }
}

impl View for FunctionSignature {
    type V = FunctionSignatureView;

    open spec fn view(&self) -> FunctionSignatureView {
        FunctionSignatureView {
            module: opt_view(self.module),
            name: self.name@,
            owner_type: opt_type_view(self.owner_type),
            input_types: inputs_view(self.input_types),
            output_type: opt_type_view(self.output_type),
        }
    }
}

impl FunctionSignature {
    pub fn new(
        module: Option<String>,
        name: String,
        owner_type: Option<Type>,
        input_types: Option<Vec<(Type, bool)>>,
        output_type: Option<Type>,
    ) -> (r: FunctionSignature)
        ensures
            r.module == module,
            r.name == name,
            r.owner_type == owner_type,
            r.input_types == input_types,
            r.output_type == output_type,
    {
        FunctionSignature { module, name, owner_type, input_types, output_type }
    }
}

/// A function defined in a source file: its signature and its statements.
pub struct CustomFunction {
    pub signature: FunctionSignature,
    pub instructions: Vec<Statement>,
}

/// The mathematical value of a [`CustomFunction`].
pub struct CustomFunctionView {
    pub signature: FunctionSignatureView,
    pub instructions: Seq<StatementView>,
}

impl View for CustomFunction {
    type V = CustomFunctionView;

    open spec fn view(&self) -> CustomFunctionView {
        CustomFunctionView { signature: self.signature@, instructions: statements_view(self.instructions@) }
    }
}

} // verus!
