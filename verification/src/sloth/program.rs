//! The program that the parser builds from the source files.

use vstd::prelude::*;
use crate::builtins::{
    BuiltInImport, BuiltInImportView, BuiltInFunction, collapse_imports, collapse_queue, expand, imports_view,
    functions_view, structures_view, modules, is_module,
};
use crate::sloth::function::FunctionSignatureView;
use crate::sloth::structure::{StructSignature, StructSignatureView};
use crate::errors::{Warning, WarningView};
use crate::sloth::expression::{Expression, ExpressionView};
use crate::sloth::function::{CustomFunction, CustomFunctionView};
use crate::sloth::structure::{CustomDefinition, CustomDefinitionView};
use crate::sloth::types::{same_opt, same_opt_type};
use crate::text::concat3;

verus! {

/// A program: the functions, structures and static expressions defined in
/// its files, the built-ins it imports, and the warnings raised while it
/// was built.
pub struct SlothProgram {
    pub name: String,
    pub import_default_builtins: bool,
    pub functions: Vec<CustomFunction>,
    pub structures: Vec<CustomDefinition>,
    pub statics: Vec<(String, Expression)>,
    pub imports: Vec<BuiltInImport>,
    pub warnings: Vec<Warning>,
}

/// The mathematical value of a [`SlothProgram`].
pub struct SlothProgramView {
    pub name: Seq<char>,
    pub import_default_builtins: bool,
    pub functions: Seq<CustomFunctionView>,
    pub structures: Seq<CustomDefinitionView>,
    pub statics: Seq<(Seq<char>, ExpressionView)>,
    pub imports: Seq<BuiltInImportView>,
    pub warnings: Seq<WarningView>,
}

impl View for SlothProgram {
    type V = SlothProgramView;

    open spec fn view(&self) -> SlothProgramView {
        SlothProgramView {
            name: self.name@,
            import_default_builtins: self.import_default_builtins,
            functions: self.functions@.map_values(|f: CustomFunction| f@),
            structures: self.structures@.map_values(|d: CustomDefinition| d@),
            statics: self.statics@.map_values(|p: (String, Expression)| (p.0@, p.1@)),
            imports: self.imports@.map_values(|i: BuiltInImport| i@),
            warnings: self.warnings@.map_values(|w: Warning| w@),
        }
    }
}

/// Whether two functions have the same module, name and owner type: the
/// later replaces the earlier.
pub open spec fn same_function(a: CustomFunctionView, b: CustomFunctionView) -> bool {
    a.signature.module == b.signature.module && a.signature.name == b.signature.name
        && a.signature.owner_type == b.signature.owner_type
}

/// The index of the first function of `fs` that `f` replaces, if any.
pub open spec fn replaced_function(fs: Seq<CustomFunctionView>, f: CustomFunctionView) -> Option<int> {
    if exists|k: int| 0 <= k < fs.len() && same_function(fs[k], f) {
        Some(choose|k: int| 0 <= k < fs.len() && same_function(fs[k], f) && forall|k2: int| 0 <= k2 < k ==> !same_function(fs[k2], f))
    } else {
        None
    }
}

/// The functions once `f` is added: it replaces the first function with
/// its module, name and owner type, or comes last.
pub open spec fn functions_with(fs: Seq<CustomFunctionView>, f: CustomFunctionView) -> Seq<CustomFunctionView> {
    match replaced_function(fs, f) {
        Some(k) => fs.update(k, f),
        None => fs.push(f),
    }
}

/// Whether two structures have the same module and name.
pub open spec fn same_structure(a: CustomDefinitionView, b: CustomDefinitionView) -> bool {
    a.signature.module == b.signature.module && a.signature.name == b.signature.name
}

/// The index of the first structure of `ds` that `d` replaces, if any.
pub open spec fn replaced_structure(ds: Seq<CustomDefinitionView>, d: CustomDefinitionView) -> Option<int> {
    if exists|k: int| 0 <= k < ds.len() && same_structure(ds[k], d) {
        Some(choose|k: int| 0 <= k < ds.len() && same_structure(ds[k], d) && forall|k2: int| 0 <= k2 < k ==> !same_structure(ds[k2], d))
    } else {
        None
    }
}

/// The structures once `d` is added: it replaces the first structure with
/// its module and name, or comes last.
pub open spec fn structures_with(ds: Seq<CustomDefinitionView>, d: CustomDefinitionView) -> Seq<CustomDefinitionView> {
    match replaced_structure(ds, d) {
        Some(k) => ds.update(k, d),
        None => ds.push(d),
    }
}

/// Whether a static expression named `name` is defined.
pub open spec fn has_static(statics: Seq<(Seq<char>, ExpressionView)>, name: Seq<char>) -> bool {
    exists|k: int| 0 <= k < statics.len() && statics[k].0 == name
}

proof fn lemma_first_index<A>(s: Seq<A>, p: spec_fn(A) -> bool, i: int)
    requires
        0 <= i < s.len(),
        p(s[i]),
        forall|k: int| 0 <= k < i ==> !p(s[k]),
    ensures
        (choose|k: int| 0 <= k < s.len() && p(s[k]) && forall|k2: int| 0 <= k2 < k ==> !p(s[k2])) == i,
{
    let c = choose|k: int| 0 <= k < s.len() && p(s[k]) && forall|k2: int| 0 <= k2 < k ==> !p(s[k2]);
    assert(0 <= c < s.len() && p(s[c]) && forall|k2: int| 0 <= k2 < c ==> !p(s[k2]));
    if c < i {
        assert(!p(s[c]));
    } else if c > i {
        assert(!p(s[i]));
    }
}

impl SlothProgram {
    /// A new program with the given name and nothing in it.
    pub fn new(name: String, import_default_builtins: bool) -> (r: SlothProgram)
        ensures
            r@ == (SlothProgramView {
                name: name@,
                import_default_builtins,
                functions: seq![],
                structures: seq![],
                statics: seq![],
                imports: seq![],
                warnings: seq![],
            }),
    {
        let r = SlothProgram {
            name,
            import_default_builtins,
            functions: Vec::new(),
            structures: Vec::new(),
            statics: Vec::new(),
            imports: Vec::new(),
            warnings: Vec::new(),
        };
        assert(r@.functions =~= seq![]);
        assert(r@.structures =~= seq![]);
        assert(r@.statics =~= seq![]);
        assert(r@.imports =~= seq![]);
        assert(r@.warnings =~= seq![]);
        r
    }

    /// Adds the import of built-ins to the program.
    pub fn add_import(&mut self, import: BuiltInImport)
        ensures
            final(self)@ == (SlothProgramView { imports: old(self)@.imports.push(import@), ..old(self)@ }),
    {
        self.imports.push(import);
        assert(self@.imports =~= old(self)@.imports.push(import@));
    }

    /// Adds a warning to the program.
    pub fn add_warning(&mut self, warning: Warning)
        ensures
            final(self)@ == (SlothProgramView { warnings: old(self)@.warnings.push(warning@), ..old(self)@ }),
    {
        self.warnings.push(warning);
        assert(self@.warnings =~= old(self)@.warnings.push(warning@));
    }

    /// Adds a function to the program. A function with the same module,
    /// name and owner type is replaced, and then a warning text is returned.
    pub fn push_function(&mut self, function: CustomFunction) -> (r: Option<String>)
        ensures
            final(self)@ == (SlothProgramView { functions: functions_with(old(self)@.functions, function@), ..old(self)@ }),
            match r {
                Some(w) => replaced_function(old(self)@.functions, function@) is Some
                    && w@ == "The function '"@ + function.signature.name@ + "' has been overwritten"@,
                None => replaced_function(old(self)@.functions, function@) is None,
            },
    {
        let ghost fs = self@.functions;
        let mut i: usize = 0;
        while i < self.functions.len()
            invariant
                i <= self.functions@.len(),
                fs == self@.functions,
                *self == *old(self),
                forall|k: int| 0 <= k < i ==> !same_function(fs[k], function@),
            decreases self.functions@.len() - i,
        {
            let f = &self.functions[i];
            assert(fs[i as int] == f@);
            if same_opt(&f.signature.module, &function.signature.module)
                && f.signature.name == function.signature.name
                && same_opt_type(&f.signature.owner_type, &function.signature.owner_type) {
                proof {
                    assert(same_function(fs[i as int], function@));
                    lemma_first_index(fs, |x: CustomFunctionView| same_function(x, function@), i as int);
                }
                let msg = concat3("The function '", function.signature.name.as_str(), "' has been overwritten");
                let ghost fv = function@;
                self.functions.set(i, function);
                assert(self@.functions =~= fs.update(i as int, fv));
                return Some(msg);
            }
            i = i + 1;
        }
        let ghost fv = function@;
        self.functions.push(function);
        assert(self@.functions =~= fs.push(fv));
        None
    }

    /// Adds a structure to the program. A structure with the same module
    /// and name is replaced, and then a warning text is returned.
    pub fn push_struct(&mut self, structure: CustomDefinition) -> (r: Option<String>)
        ensures
            final(self)@ == (SlothProgramView { structures: structures_with(old(self)@.structures, structure@), ..old(self)@ }),
            match r {
                Some(w) => replaced_structure(old(self)@.structures, structure@) is Some
                    && w@ == "The structure '"@ + structure.signature.name@ + "' has been overwritten"@,
                None => replaced_structure(old(self)@.structures, structure@) is None,
            },
    {
        let ghost ds = self@.structures;
        let mut i: usize = 0;
        while i < self.structures.len()
            invariant
                i <= self.structures@.len(),
                ds == self@.structures,
                *self == *old(self),
                forall|k: int| 0 <= k < i ==> !same_structure(ds[k], structure@),
            decreases self.structures@.len() - i,
        {
            let d = &self.structures[i];
            assert(ds[i as int] == d@);
            if same_opt(&d.signature.module, &structure.signature.module)
                && d.signature.name == structure.signature.name {
                proof {
                    assert(same_structure(ds[i as int], structure@));
                    lemma_first_index(ds, |x: CustomDefinitionView| same_structure(x, structure@), i as int);
                }
                let msg = concat3("The structure '", structure.signature.name.as_str(), "' has been overwritten");
                let ghost dv = structure@;
                self.structures.set(i, structure);
                assert(self@.structures =~= ds.update(i as int, dv));
                return Some(msg);
            }
            i = i + 1;
        }
        let ghost dv = structure@;
        self.structures.push(structure);
        assert(self@.structures =~= ds.push(dv));
        None
    }

    /// Adds a static expression to the program; an error message when one
    /// with that name is already defined.
    pub fn push_static(&mut self, name: &String, expr: Expression) -> (r: Result<(), String>)
        ensures
            match r {
                Ok(()) => !has_static(old(self)@.statics, name@)
                    && final(self)@ == (SlothProgramView { statics: old(self)@.statics.push((name@, expr@)), ..old(self)@ }),
                Err(m) => has_static(old(self)@.statics, name@)
                    && *final(self) == *old(self)
                    && m@ == "The static expression '"@ + name@ + "' is already defined"@,
            },
    {
        let ghost st = self@.statics;
        let mut i: usize = 0;
        while i < self.statics.len()
            invariant
                i <= self.statics@.len(),
                st == self@.statics,
                *self == *old(self),
                forall|k: int| 0 <= k < i ==> st[k].0 != name@,
            decreases self.statics@.len() - i,
        {
            assert(st[i as int].0 == self.statics@[i as int].0@);
            if self.statics[i].0 == *name {
                return Err(concat3("The static expression '", name.as_str(), "' is already defined"));
            }
            i = i + 1;
        }
        let ghost ev = expr@;
        self.statics.push((name.clone(), expr));
        assert(self@.statics =~= st.push((name@, ev)));
        Ok(())
    }
}

/// The first import, from index `i` on, whose module does not exist.
pub open spec fn first_unknown_module(imps: Seq<BuiltInImportView>, i: int) -> Option<Seq<char>>
    decreases imps.len() - i,
{
    if i < 0 || i >= imps.len() {
        None
    } else if !modules().contains(imps[i].module) {
        Some(imps[i].module)
    } else {
        first_unknown_module(imps, i + 1)
    }
}

/// The built-in functions and structures that the imports `imps` bring
/// (see `collapse_queue`); the message about the first import of a module
/// that does not exist, or of a built-in that a module lacks.
pub open spec fn imported_builtins(imps: Seq<BuiltInImportView>) -> Result<(Seq<FunctionSignatureView>, Seq<StructSignatureView>), Seq<char>> {
    match first_unknown_module(imps, 0) {
        Some(m) => Err("Built-in module '"@ + m + "' does not exists"@),
        None => collapse_queue(expand(imps), seq![], seq![], seq![]),
    }
}

impl SlothProgram {
    /// The built-in functions and structures that the program imports,
    /// each once; the message of the first import that names a module or
    /// a built-in that does not exist.
    pub fn import_builtins(&self) -> (r: Result<(Vec<BuiltInFunction>, Vec<StructSignature>), String>)
        ensures
            match r {
                Ok((f, s)) => imported_builtins(self@.imports)
                    == Ok::<(Seq<FunctionSignatureView>, Seq<StructSignatureView>), Seq<char>>((functions_view(f@), structures_view(s@))),
                Err(m) => imported_builtins(self@.imports)
                    == Err::<(Seq<FunctionSignatureView>, Seq<StructSignatureView>), Seq<char>>(m@),
            },
    {
        let ghost imps = self@.imports;
        let mut copies: Vec<BuiltInImport> = Vec::new();
        let mut i: usize = 0;
        while i < self.imports.len()
            invariant
                imps == self@.imports,
                i <= self.imports@.len(),
                imports_view(copies@) == imps.take(i as int),
                first_unknown_module(imps, 0) == first_unknown_module(imps, i as int),
            decreases self.imports@.len() - i,
        {
            let imp = &self.imports[i];
            assert(imps[i as int] == imp@);
            if !is_module(imp.module().as_str()) {
                return Err(concat3("Built-in module '", imp.module().as_str(), "' does not exists"));
            }
            let c = imp.duplicate();
            proof {
                assert(imports_view(copies@.push(c)) =~= imports_view(copies@).push(c@));
                assert(imps.take(i + 1) =~= imps.take(i as int).push(imps[i as int]));
            }
            copies.push(c);
            i = i + 1;
        }
        proof {
            assert(imps.take(i as int) =~= imps);
            assert forall|k: int| 0 <= k < copies@.len() implies modules().contains(#[trigger] copies@[k]@.module) by {
                assert(imports_view(copies@)[k] == copies@[k]@);
                lemma_first_unknown_none(imps, 0, k);
            }
        }
        collapse_imports(copies)
    }
}

/// When no import from index `i` on names an unknown module, the import
/// at index `k` does not either.
proof fn lemma_first_unknown_none(imps: Seq<BuiltInImportView>, i: int, k: int)
    requires
        0 <= i <= k < imps.len(),
        first_unknown_module(imps, i) is None,
    ensures
        modules().contains(imps[k].module),
    decreases k - i,
{
    if i < k {
        lemma_first_unknown_none(imps, i + 1, k);
    }
}

} // verus!
