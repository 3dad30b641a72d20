//! Built-in functions and structures, grouped in modules that a program
//! imports with the `builtin` statement.
//!
//! The modules that can be imported are the eight of `modules()`: io,
//! numbers, strings, lists, maths, files, clock and media. The module
//! `random` describes its built-ins in the same way, but it is not among
//! them, so that an import of it is refused.

pub mod io;
pub mod numbers;
pub mod strings;
pub mod lists;
pub mod maths;
pub mod files;
pub mod clock;
pub mod media;
pub mod random;

use vstd::prelude::*;
use crate::sloth::types::{Type, TypeView, opt_type_view};
use crate::sloth::function::{FunctionSignature, FunctionSignatureView};
use crate::sloth::structure::{StructSignature, StructSignatureView};
use crate::text::{str_eq, string_of, concat3};

verus! {

/// Whether a built-in is a function or a structure.
#[derive(Clone, Copy, Debug, PartialEq, Eq, Structural)]
pub enum BuiltinTypes {
    Function,
    Structure,
}

/// The names of the built-in modules that can be imported.
pub open spec fn modules() -> Seq<Seq<char>> {
    seq!["io"@, "numbers"@, "strings"@, "lists"@, "maths"@, "files"@, "clock"@, "media"@]
}

/// The names of the built-ins of module `m`, in order.
pub open spec fn module_builtins(m: Seq<char>) -> Seq<Seq<char>> {
    if m == "io"@ { io::builtins() }
    else if m == "numbers"@ { numbers::builtins() }
    else if m == "strings"@ { strings::builtins() }
    else if m == "lists"@ { lists::builtins() }
    else if m == "maths"@ { maths::builtins() }
    else if m == "files"@ { files::builtins() }
    else if m == "clock"@ { clock::builtins() }
    else if m == "media"@ { media::builtins() }
    else { seq![] }
}

/// Whether the built-in `b` of module `m` is a function or a structure, if
/// the module has it.
pub open spec fn module_kind(m: Seq<char>, b: Seq<char>) -> Option<BuiltinTypes> {
    if m == "io"@ { io::kind(b) }
    else if m == "numbers"@ { numbers::kind(b) }
    else if m == "strings"@ { strings::kind(b) }
    else if m == "lists"@ { lists::kind(b) }
    else if m == "maths"@ { maths::kind(b) }
    else if m == "files"@ { files::kind(b) }
    else if m == "clock"@ { clock::kind(b) }
    else if m == "media"@ { media::kind(b) }
    else { None }
}

/// The name of the module that the error of a missing built-in of module
/// `m` mentions.
pub open spec fn module_error_name(m: Seq<char>) -> Seq<char> {
    if m == "clock"@ { "files"@ } else { m }
}

/// The signature of the built-in function `b` of module `m`.
pub open spec fn module_function(m: Seq<char>, b: Seq<char>) -> FunctionSignatureView {
    if m == "io"@ { io::signature(b) }
    else if m == "numbers"@ { numbers::signature(b) }
    else if m == "strings"@ { strings::signature(b) }
    else if m == "lists"@ { lists::signature(b) }
    else if m == "maths"@ { maths::signature(b) }
    else if m == "files"@ { files::signature(b) }
    else if m == "clock"@ { clock::signature(b) }
    else { media::signature(b) }
}

/// The signature of the built-in structure `b` of module `m`, and the
/// built-ins it requires.
pub open spec fn module_structure(m: Seq<char>, b: Seq<char>) -> (StructSignatureView, Seq<Seq<char>>) {
    if m == "clock"@ { clock::structure(b) } else { media::structure(b) }
}

/// A function built in the interpreter: its signature. What it does is
/// carried out by the interpreter's runtime, which finds it by its module
/// and name.
pub struct BuiltInFunction {
    pub signature: FunctionSignature,
}

impl BuiltInFunction {
    pub fn new(name: &str, module: Option<&str>, owner_type: Option<Type>, output_type: Type) -> (r: BuiltInFunction)
        ensures
            r.signature@ == (FunctionSignatureView {
                module: match module { Some(m) => Some(m@), None => None },
                name: name@,
                owner_type: opt_type_view(owner_type),
                input_types: None,
                output_type: Some(output_type@),
            }),
    {
        let new_module = match module {
            Some(s) => Some(string_of(s)),
            None => None,
        };
        BuiltInFunction {
            signature: FunctionSignature {
                module: new_module,
                name: string_of(name),
                owner_type,
                input_types: None,
                output_type: Some(output_type),
            },
        }
    }
}

/// The import of built-ins: a module, and a list of built-ins from it, or
/// the whole module when the list is `None`. It can name modules or
/// built-ins that do not exist; `is_valid` tells.
pub struct BuiltInImport {
    module: String,
    builtins: Option<Vec<String>>,
}

/// The mathematical value of a [`BuiltInImport`].
pub struct BuiltInImportView {
    pub module: Seq<char>,
    pub builtins: Option<Seq<Seq<char>>>,
}

/// The views of a list of strings.
pub open spec fn strings_view(v: Seq<String>) -> Seq<Seq<char>> {
    v.map_values(|s: String| s@)
}

impl View for BuiltInImport {
    type V = BuiltInImportView;

    closed spec fn view(&self) -> BuiltInImportView {
        BuiltInImportView {
            module: self.module@,
            builtins: match self.builtins { Some(v) => Some(strings_view(v@)), None => None },
        }
    }
}

/// The first built-in of `v`, from index `i` on, that module `m` lacks.
pub open spec fn first_missing(m: Seq<char>, v: Seq<Seq<char>>, i: int) -> Option<Seq<char>>
    decreases v.len() - i,
{
    if i < 0 || i >= v.len() {
        None
    } else if !module_builtins(m).contains(v[i]) {
        Some(v[i])
    } else {
        first_missing(m, v, i + 1)
    }
}

/// Whether an import is valid; the message of the first fault otherwise.
pub open spec fn import_check(imp: BuiltInImportView) -> Result<(), Seq<char>> {
    if !modules().contains(imp.module) {
        Err("Built-in module '"@ + imp.module + "' does not exists"@)
    } else {
        match imp.builtins {
            None => Ok(()),
            Some(v) => match first_missing(imp.module, v, 0) {
                None => Ok(()),
                Some(b) => Err("Built-in '"@ + b + "' does not exists in the module '"@ + imp.module + "'"@),
            },
        }
    }
}

/// Whether `m` names a built-in module.
pub fn is_module(m: &str) -> (r: bool)
    ensures
        r == modules().contains(m@),
{
    if str_eq(m, "io") { assert(modules()[0] == m@); return true; }
    if str_eq(m, "numbers") { assert(modules()[1] == m@); return true; }
    if str_eq(m, "strings") { assert(modules()[2] == m@); return true; }
    if str_eq(m, "lists") { assert(modules()[3] == m@); return true; }
    if str_eq(m, "maths") { assert(modules()[4] == m@); return true; }
    if str_eq(m, "files") { assert(modules()[5] == m@); return true; }
    if str_eq(m, "clock") { assert(modules()[6] == m@); return true; }
    if str_eq(m, "media") { assert(modules()[7] == m@); return true; }
    false
}

/// The names of the built-ins of module `m`, in order.
pub fn builtins_of(m: &str) -> (r: Vec<String>)
    ensures
        strings_view(r@) == module_builtins(m@),
{
    proof { lemma_module_names(); }
    let mut r: Vec<String> = Vec::new();
    if str_eq(m, "io") {
        r.push(string_of("print"));
        r.push(string_of("read"));
        assert(strings_view(r@) =~= module_builtins(m@));
    } else if str_eq(m, "numbers") {
        r.push(string_of("to_string"));
        r.push(string_of("floor"));
        r.push(string_of("ceil"));
        r.push(string_of("round"));
        assert(strings_view(r@) =~= module_builtins(m@));
    } else if str_eq(m, "strings") {
        r.push(string_of("to_num"));
        r.push(string_of("len"));
        r.push(string_of("insert"));
        r.push(string_of("push"));
        r.push(string_of("remove"));
        r.push(string_of("split"));
        r.push(string_of("get"));
        assert(strings_view(r@) =~= module_builtins(m@));
    } else if str_eq(m, "lists") {
        r.push(string_of("set"));
        r.push(string_of("get"));
        r.push(string_of("push"));
        r.push(string_of("pull"));
        r.push(string_of("len"));
        assert(strings_view(r@) =~= module_builtins(m@));
    } else if str_eq(m, "maths") {
        r.push(string_of("pow"));
        r.push(string_of("sqrt"));
        assert(strings_view(r@) =~= module_builtins(m@));
    } else if str_eq(m, "files") {
        r.push(string_of("load"));
        r.push(string_of("save"));
        assert(strings_view(r@) =~= module_builtins(m@));
    } else if str_eq(m, "clock") {
        r.push(string_of("now"));
        r.push(string_of("since"));
        r.push(string_of("sleep"));
        r.push(string_of("Instant"));
        r.push(string_of("Duration"));
        assert(strings_view(r@) =~= module_builtins(m@));
    } else if str_eq(m, "media") {
        r.push(string_of("Canvas"));
        r.push(string_of("check_event"));
        r.push(string_of("update"));
        r.push(string_of("set_pixel"));
        r.push(string_of("set_rect"));
        assert(strings_view(r@) =~= module_builtins(m@));
    } else {
        assert(strings_view(r@) =~= module_builtins(m@));
    }
    r
}

/// Whether `b` is a built-in of module `m`.
fn module_has(m: &str, b: &String) -> (r: bool)
    ensures
        r == module_builtins(m@).contains(b@),
{
    let names = builtins_of(m);
    let mut i: usize = 0;
    while i < names.len()
        invariant
            i <= names@.len(),
            strings_view(names@) == module_builtins(m@),
            forall|j: int| 0 <= j < i ==> module_builtins(m@)[j] != b@,
        decreases names@.len() - i,
    {
        if names[i] == *b {
            assert(module_builtins(m@)[i as int] == b@);
            return true;
        }
        i = i + 1;
    }
    false
}

impl BuiltInImport {
    pub fn new(module: String, builtins: Option<Vec<String>>) -> (r: BuiltInImport)
        ensures
            r@ == (BuiltInImportView {
                module: module@,
                builtins: match builtins { Some(v) => Some(strings_view(v@)), None => None },
            }),
    {
        BuiltInImport { module, builtins }
    }

    /// A copy of the import.
    pub fn duplicate(&self) -> (r: BuiltInImport)
        ensures
            r@ == self@,
    {
        let builtins = match &self.builtins {
            Some(v) => Some(copy_strings(v)),
            None => None,
        };
        BuiltInImport { module: self.module.clone(), builtins }
    }

    /// The module the import is from.
    pub fn module(&self) -> (r: &String)
        ensures
            r@ == self@.module,
    {
        &self.module
    }

    /// Whether the import is valid: its module exists, and so does each
    /// built-in it names. Else the message of the first fault.
    pub fn is_valid(&self) -> (r: Result<(), String>)
        ensures
            match r {
                Ok(()) => import_check(self@) == Ok::<(), Seq<char>>(()),
                Err(m) => import_check(self@) == Err::<(), Seq<char>>(m@),
            },
    {
        if !is_module(self.module.as_str()) {
            return Err(concat3("Built-in module '", self.module.as_str(), "' does not exists"));
        }
        match &self.builtins {
            None => Ok(()),
            Some(v) => {
                let ghost vv = strings_view(v@);
                let mut i: usize = 0;
                while i < v.len()
                    invariant
                        i <= v@.len(),
                        vv == strings_view(v@),
                        self@.builtins == Some(vv),
                        self@.module == self.module@,
                        first_missing(self.module@, vv, 0) == first_missing(self.module@, vv, i as int),
                        modules().contains(self.module@),
                    decreases v@.len() - i,
                {
                    assert(vv[i as int] == v@[i as int]@);
                    if !module_has(self.module.as_str(), &v[i]) {
                        let mut msg = concat3("Built-in '", v[i].as_str(), "' does not exists in the module '");
                        msg.append(self.module.as_str());
                        msg.append("'");
                        return Err(msg);
                    }
                    i = i + 1;
                }
                Ok(())
            },
        }
    }
}

/// A reference to a built-in: its module and its name.
pub type BuiltinRef = (Seq<char>, Seq<char>);

/// The built-ins that an import asks for, in order: those it lists, or all
/// those of its module.
pub open spec fn import_items(imp: BuiltInImportView) -> Seq<BuiltinRef> {
    let names = match imp.builtins { Some(v) => v, None => module_builtins(imp.module) };
    names.map_values(|b: Seq<char>| (imp.module, b))
}

/// The built-ins that a list of imports asks for, in order.
pub open spec fn expand(imps: Seq<BuiltInImportView>) -> Seq<BuiltinRef>
    decreases imps.len(),
{
    if imps.len() == 0 { seq![] } else { import_items(imps[0]) + expand(imps.drop_first()) }
}

/// The key under which a built-in is recorded once imported.
pub open spec fn import_id(m: Seq<char>, b: Seq<char>) -> Seq<char> {
    m + ":"@ + b
}

/// How many of the built-in structures have been imported.
pub open spec fn imported_structures(imported: Seq<Seq<char>>) -> int {
    (if imported.contains(import_id("clock"@, "Instant"@)) { 1int } else { 0int })
        + (if imported.contains(import_id("clock"@, "Duration"@)) { 1int } else { 0int })
        + (if imported.contains(import_id("media"@, "Canvas"@)) { 1int } else { 0int })
}

/// Recording a built-in never lowers the count of imported structures, and
/// recording a structure that was not recorded raises it.
pub proof fn lemma_imported_structures(imported: Seq<Seq<char>>, m: Seq<char>, b: Seq<char>)
    ensures
        imported_structures(imported.push(import_id(m, b))) >= imported_structures(imported),
        module_kind(m, b) == Some(BuiltinTypes::Structure) && !imported.contains(import_id(m, b))
            ==> imported_structures(imported.push(import_id(m, b))) > imported_structures(imported),
        0 <= imported_structures(imported) <= 3,
{
    let id = import_id(m, b);
    let n = imported.push(id);
    assert(n[n.len() - 1] == id);
    assert forall|x: Seq<char>| imported.contains(x) implies n.contains(x) by {
        let k = choose|k: int| 0 <= k < imported.len() && imported[k] == x;
        assert(n[k] == x);
    }
}

/// The functions and structures that importing the built-ins of `queue`
/// brings, after those already brought (`imported` keeps their keys): each
/// built-in is brought once, and a structure brings the built-ins it
/// requires, at the end of the queue. The message of the error when a
/// module lacks a built-in.
pub open spec fn collapse_queue(
    queue: Seq<BuiltinRef>,
    imported: Seq<Seq<char>>,
    funcs: Seq<FunctionSignatureView>,
    structs: Seq<StructSignatureView>,
) -> Result<(Seq<FunctionSignatureView>, Seq<StructSignatureView>), Seq<char>>
    decreases 3 - imported_structures(imported), queue.len(),
{
    if queue.len() == 0 {
        Ok((funcs, structs))
    } else {
        let (m, b) = queue[0];
        let rest = queue.drop_first();
        let id = import_id(m, b);
        proof { lemma_imported_structures(imported, m, b); }
        if imported.contains(id) {
            collapse_queue(rest, imported, funcs, structs)
        } else {
            match module_kind(m, b) {
                None => Err("Builtin '"@ + b + "' not found in module '"@ + module_error_name(m) + "'"@),
                Some(BuiltinTypes::Function) => collapse_queue(rest, imported.push(id), funcs.push(module_function(m, b)), structs),
                Some(BuiltinTypes::Structure) => collapse_queue(
                    rest + module_structure(m, b).1.map_values(|r: Seq<char>| (m, r)),
                    imported.push(id),
                    funcs,
                    structs.push(module_structure(m, b).0),
                ),
            }
        }
    }
}

/// The views of a list of imports.
pub open spec fn imports_view(v: Seq<BuiltInImport>) -> Seq<BuiltInImportView> {
    v.map_values(|i: BuiltInImport| i@)
}

/// The signatures of a list of built-in functions.
pub open spec fn functions_view(v: Seq<BuiltInFunction>) -> Seq<FunctionSignatureView> {
    v.map_values(|f: BuiltInFunction| f.signature@)
}

/// The views of a list of structure signatures.
pub open spec fn structures_view(v: Seq<StructSignature>) -> Seq<StructSignatureView> {
    v.map_values(|s: StructSignature| s@)
}

/// The names of the modules are distinct.
pub proof fn lemma_module_names()
    ensures
        "io"@ != "numbers"@,
        "io"@ != "strings"@,
        "io"@ != "lists"@,
        "io"@ != "maths"@,
        "io"@ != "files"@,
        "io"@ != "clock"@,
        "io"@ != "media"@,
        "numbers"@ != "strings"@,
        "numbers"@ != "lists"@,
        "numbers"@ != "maths"@,
        "numbers"@ != "files"@,
        "numbers"@ != "clock"@,
        "numbers"@ != "media"@,
        "strings"@ != "lists"@,
        "strings"@ != "maths"@,
        "strings"@ != "files"@,
        "strings"@ != "clock"@,
        "strings"@ != "media"@,
        "lists"@ != "maths"@,
        "lists"@ != "files"@,
        "lists"@ != "clock"@,
        "lists"@ != "media"@,
        "maths"@ != "files"@,
        "maths"@ != "clock"@,
        "maths"@ != "media"@,
        "files"@ != "clock"@,
        "files"@ != "media"@,
        "clock"@ != "media"@,
{
    reveal_strlit("io");
    reveal_strlit("numbers");
    reveal_strlit("strings");
    reveal_strlit("lists");
    reveal_strlit("maths");
    reveal_strlit("files");
    reveal_strlit("clock");
    reveal_strlit("media");
    assert("io"@.len() == 2 && "io"@[0] == 'i' && "io"@[1] == 'o');
    assert("numbers"@.len() == 7 && "numbers"@[0] == 'n' && "numbers"@[1] == 'u');
    assert("strings"@.len() == 7 && "strings"@[0] == 's' && "strings"@[1] == 't');
    assert("lists"@.len() == 5 && "lists"@[0] == 'l' && "lists"@[1] == 'i');
    assert("maths"@.len() == 5 && "maths"@[0] == 'm' && "maths"@[1] == 'a');
    assert("files"@.len() == 5 && "files"@[0] == 'f' && "files"@[1] == 'i');
    assert("clock"@.len() == 5 && "clock"@[0] == 'c' && "clock"@[1] == 'l');
    assert("media"@.len() == 5 && "media"@[0] == 'm' && "media"@[1] == 'e');
}

/// The modules are the ones listed.
pub proof fn lemma_modules(x: Seq<char>)
    requires
        modules().contains(x),
    ensures
        x == "io"@ || x == "numbers"@ || x == "strings"@ || x == "lists"@ || x == "maths"@ || x == "files"@ || x == "clock"@ || x == "media"@,
{
    let k = choose|k: int| 0 <= k < modules().len() && modules()[k] == x;
    if k == 0 { assert(modules()[0] == "io"@); }
    if k == 1 { assert(modules()[1] == "numbers"@); }
    if k == 2 { assert(modules()[2] == "strings"@); }
    if k == 3 { assert(modules()[3] == "lists"@); }
    if k == 4 { assert(modules()[4] == "maths"@); }
    if k == 5 { assert(modules()[5] == "files"@); }
    if k == 6 { assert(modules()[6] == "clock"@); }
    if k == 7 { assert(modules()[7] == "media"@); }
}

/// Whether the built-in `b` of module `m` is a function or a structure.
pub fn module_get_type(m: &str, b: &String) -> (r: Result<BuiltinTypes, String>)
    requires
        modules().contains(m@),
    ensures
        match r {
            Ok(k) => module_kind(m@, b@) == Some(k),
            Err(msg) => module_kind(m@, b@) is None
                && msg@ == "Builtin '"@ + b@ + "' not found in module '"@ + module_error_name(m@) + "'"@,
        },
{
    proof { lemma_module_names(); }
    if str_eq(m, "io") {
        let r = io::get_type(b);
        assert(module_kind(m@, b@) == io::kind(b@));
        r
    } else if str_eq(m, "numbers") {
        let r = numbers::get_type(b);
        assert(module_kind(m@, b@) == numbers::kind(b@));
        r
    } else if str_eq(m, "strings") {
        let r = strings::get_type(b);
        assert(module_kind(m@, b@) == strings::kind(b@));
        r
    } else if str_eq(m, "lists") {
        let r = lists::get_type(b);
        assert(module_kind(m@, b@) == lists::kind(b@));
        r
    } else if str_eq(m, "maths") {
        let r = maths::get_type(b);
        assert(module_kind(m@, b@) == maths::kind(b@));
        r
    } else if str_eq(m, "files") {
        let r = files::get_type(b);
        assert(module_kind(m@, b@) == files::kind(b@));
        r
    } else if str_eq(m, "clock") {
        let r = clock::get_type(b);
        assert(module_kind(m@, b@) == clock::kind(b@));
        r
    } else {
        proof { lemma_modules(m@); }
        let r = media::get_type(b);
        assert(module_kind(m@, b@) == media::kind(b@));
        r
    }
}

/// The built-in function `b` of module `m`.
pub fn module_get_function(m: &str, b: String) -> (r: BuiltInFunction)
    requires
        module_kind(m@, b@) == Some(BuiltinTypes::Function),
    ensures
        r.signature@ == module_function(m@, b@),
{
    proof { lemma_module_names(); }
    if str_eq(m, "io") {
        io::get_function(b)
    } else if str_eq(m, "numbers") {
        numbers::get_function(b)
    } else if str_eq(m, "strings") {
        strings::get_function(b)
    } else if str_eq(m, "lists") {
        lists::get_function(b)
    } else if str_eq(m, "maths") {
        maths::get_function(b)
    } else if str_eq(m, "files") {
        files::get_function(b)
    } else if str_eq(m, "clock") {
        clock::get_function(b)
    } else {
        media::get_function(b)
    }
}

/// The built-in structure `b` of module `m`, with the built-ins it requires.
pub fn module_get_struct(m: &str, b: String) -> (r: (StructSignature, Vec<String>))
    requires
        module_kind(m@, b@) == Some(BuiltinTypes::Structure),
    ensures
        r.0@ == module_structure(m@, b@).0,
        strings_view(r.1@) == module_structure(m@, b@).1,
{
    proof { lemma_module_names(); }
    if str_eq(m, "clock") {
        clock::get_struct(b)
    } else {
        media::get_struct(b)
    }
}

/// Whether the key `id` is in `imported`.
fn contains_string(imported: &Vec<String>, id: &String) -> (r: bool)
    ensures
        r == strings_view(imported@).contains(id@),
{
    let mut i: usize = 0;
    while i < imported.len()
        invariant
            i <= imported@.len(),
            forall|j: int| 0 <= j < i ==> imported@[j]@ != id@,
        decreases imported@.len() - i,
    {
        if imported[i] == *id {
            assert(strings_view(imported@)[i as int] == id@);
            return true;
        }
        i = i + 1;
    }
    assert forall|j: int| 0 <= j < strings_view(imported@).len() implies strings_view(imported@)[j] != id@ by {
        assert(strings_view(imported@)[j] == imported@[j]@);
    }
    false
}

/// A copy of a list of strings.
fn copy_strings(v: &Vec<String>) -> (r: Vec<String>)
    ensures
        strings_view(r@) == strings_view(v@),
{
    let mut r: Vec<String> = Vec::new();
    let mut i: usize = 0;
    while i < v.len()
        invariant
            i <= v@.len(),
            strings_view(r@) == strings_view(v@.take(i as int)),
        decreases v@.len() - i,
    {
        let ghost old_r = r@;
        r.push(v[i].clone());
        assert(r@ == old_r.push(v@[i as int]));
        assert(strings_view(old_r.push(v@[i as int])) =~= strings_view(old_r).push(v@[i as int]@));
        assert(v@.take(i + 1) =~= v@.take(i as int).push(v@[i as int]));
        assert(strings_view(v@.take(i as int).push(v@[i as int])) =~= strings_view(v@.take(i as int)).push(v@[i as int]@));
        assert(strings_view(r@) =~= strings_view(v@.take(i + 1)));
        i = i + 1;
    }
    assert(v@.take(v@.len() as int) =~= v@);
    r
}

proof fn lemma_expand_push(imps: Seq<BuiltInImportView>, x: BuiltInImportView)
    ensures
        expand(imps.push(x)) == expand(imps) + import_items(x),
    decreases imps.len(),
{
    if imps.len() == 0 {
        let t = imps.push(x);
        assert(t[0] == x);
        assert(t.drop_first() =~= Seq::<BuiltInImportView>::empty());
        assert(expand(t.drop_first()) =~= Seq::<BuiltinRef>::empty());
        assert(expand(imps) =~= Seq::<BuiltinRef>::empty());
        assert(expand(t) =~= import_items(x));
    } else {
        assert(imps.push(x).drop_first() =~= imps.drop_first().push(x));
        lemma_expand_push(imps.drop_first(), x);
        assert(expand(imps.push(x)) =~= expand(imps) + import_items(x));
    }
}

proof fn lemma_expand_skip(imps: Seq<BuiltInImportView>, i: int)
    requires
        0 <= i < imps.len(),
    ensures
        expand(imps.skip(i)) == import_items(imps[i]) + expand(imps.skip(i + 1)),
{
    assert(imps.skip(i).drop_first() =~= imps.skip(i + 1));
    assert(imps.skip(i)[0] == imps[i]);
}

/// Gathers the built-in functions and structures that the imports ask
/// for, each once, as `collapse_queue` says: a structure brings the
/// built-ins it requires. The message of the first built-in a module lacks
/// otherwise.
pub fn collapse_imports(imports: Vec<BuiltInImport>) -> (r: Result<(Vec<BuiltInFunction>, Vec<StructSignature>), String>)
    requires
        forall|k: int| 0 <= k < imports@.len() ==> modules().contains(#[trigger] imports@[k]@.module),
    ensures
        match r {
            Ok((f, s)) => collapse_queue(expand(imports_view(imports@)), seq![], seq![], seq![])
                == Ok::<(Seq<FunctionSignatureView>, Seq<StructSignatureView>), Seq<char>>((functions_view(f@), structures_view(s@))),
            Err(m) => collapse_queue(expand(imports_view(imports@)), seq![], seq![], seq![])
                == Err::<(Seq<FunctionSignatureView>, Seq<StructSignatureView>), Seq<char>>(m@),
        },
{
    let ghost goal = collapse_queue(expand(imports_view(imports@)), seq![], seq![], seq![]);
    let ghost orig = imports@;
    let mut work = imports;
    let mut imported: Vec<String> = Vec::new();
    let mut funcs: Vec<BuiltInFunction> = Vec::new();
    let mut structs: Vec<StructSignature> = Vec::new();
    let mut i: usize = 0;
    assert(imports_view(work@).skip(0) =~= imports_view(work@));
    assert(strings_view(imported@) =~= Seq::<Seq<char>>::empty());
    assert(functions_view(funcs@) =~= Seq::<FunctionSignatureView>::empty());
    assert(structures_view(structs@) =~= Seq::<StructSignatureView>::empty());
    while i < work.len()
        invariant
            i <= work@.len(),
            forall|k: int| 0 <= k < work@.len() ==> modules().contains(#[trigger] work@[k]@.module),
            goal == collapse_queue(expand(imports_view(orig)), seq![], seq![], seq![]),
            orig == imports@,
            goal == collapse_queue(expand(imports_view(work@).skip(i as int)), strings_view(imported@),
                functions_view(funcs@), structures_view(structs@)),
        decreases 3 - imported_structures(strings_view(imported@)), work@.len() - i,
    {
        proof {
            lemma_imported_structures(strings_view(imported@), seq![], seq![]);
            lemma_expand_skip(imports_view(work@), i as int);
            assert(imports_view(work@)[i as int] == work@[i as int]@);
        }
        let module = work[i].module.clone();
        let names = match &work[i].builtins {
            Some(v) => copy_strings(v),
            None => builtins_of(module.as_str()),
        };
        let ghost count0 = imported_structures(strings_view(imported@));
        let ghost len0 = work@.len();
        let ghost next = imports_view(work@).skip(i + 1);
        let ghost items = import_items(work@[i as int]@);
        assert(items =~= strings_view(names@).map_values(|b: Seq<char>| (module@, b)));
        let mut j: usize = 0;
        assert(items.skip(0) =~= items);
        while j < names.len()
            invariant
                j <= names@.len(),
                i < len0 <= work@.len(),
                forall|k: int| 0 <= k < work@.len() ==> modules().contains(#[trigger] work@[k]@.module),
                modules().contains(module@),
                goal == collapse_queue(expand(imports_view(orig)), seq![], seq![], seq![]),
                orig == imports@,
                items == strings_view(names@).map_values(|b: Seq<char>| (module@, b)),
                goal == collapse_queue(items.skip(j as int) + expand(imports_view(work@).skip(i + 1)),
                    strings_view(imported@), functions_view(funcs@), structures_view(structs@)),
                imported_structures(strings_view(imported@)) >= count0,
                work@.len() > len0 ==> imported_structures(strings_view(imported@)) > count0,
            decreases names@.len() - j,
        {
            let ghost q = items.skip(j as int) + expand(imports_view(work@).skip(i + 1));
            assert(items[j as int] == (module@, names@[j as int]@));
            assert(q[0] == items[j as int]);
            assert(q.drop_first() =~= items.skip(j + 1) + expand(imports_view(work@).skip(i + 1)));
            let b = names[j].clone();
            let id = concat3(module.as_str(), ":", b.as_str());
            proof { lemma_imported_structures(strings_view(imported@), module@, b@); }
            assert(b@ == names@[j as int]@);
            assert(id@ == import_id(module@, b@));
            if !contains_string(&imported, &id) {
                let kind = match module_get_type(module.as_str(), &b) {
                    Ok(k) => k,
                    Err(e) => {
                        assert(q.len() > 0);
                        assert(q[0] == (module@, b@));
                        assert(!strings_view(imported@).contains(import_id(q[0].0, q[0].1)));
                        assert(module_kind(q[0].0, q[0].1) is None);
                        assert(goal == collapse_queue(q, strings_view(imported@), functions_view(funcs@), structures_view(structs@)));
                        assert(e@ == "Builtin '"@ + q[0].1 + "' not found in module '"@ + module_error_name(q[0].0) + "'"@);
                        assert(collapse_queue(q, strings_view(imported@), functions_view(funcs@), structures_view(structs@))
                            == Err::<(Seq<FunctionSignatureView>, Seq<StructSignatureView>), Seq<char>>(e@));
                        return Err(e);
                    },
                };
                let ghost old_imported = imported@;
                match kind {
                    BuiltinTypes::Function => {
                        let f = module_get_function(module.as_str(), b);
                        let ghost old_funcs = funcs@;
                        funcs.push(f);
                        assert(functions_view(funcs@) =~= functions_view(old_funcs).push(module_function(module@, names@[j as int]@)));
                    },
                    BuiltinTypes::Structure => {
                        let (sig, reqs) = module_get_struct(module.as_str(), b);
                        let ghost old_structs = structs@;
                        let ghost old_imports = work@;
                        structs.push(sig);
                        assert(structures_view(structs@) =~= structures_view(old_structs).push(module_structure(module@, names@[j as int]@).0));
                        let new_import = BuiltInImport::new(module.clone(), Some(reqs));
                        work.push(new_import);
                        proof {
                            assert(imports_view(work@) =~= imports_view(old_imports).push(new_import@));
                            assert(imports_view(work@).skip(i + 1) =~= imports_view(old_imports).skip(i + 1).push(new_import@));
                            lemma_expand_push(imports_view(old_imports).skip(i + 1), new_import@);
                            assert(import_items(new_import@) =~= module_structure(module@, names@[j as int]@).1.map_values(|r: Seq<char>| (module@, r)));
                            assert(work@[work@.len() - 1]@.module == module@);
                            assert forall|k: int| 0 <= k < work@.len() implies modules().contains(#[trigger] work@[k]@.module) by {
                                if k < old_imports.len() {
                                    assert(work@[k] == old_imports[k]);
                                }
                            }
                        }
                    },
                }
                imported.push(id);
                assert(strings_view(imported@) =~= strings_view(old_imported).push(import_id(module@, names@[j as int]@)));
                proof {
                    if kind == BuiltinTypes::Function {
                        assert(goal == collapse_queue(q.drop_first(), strings_view(imported@), functions_view(funcs@), structures_view(structs@)));
                    } else {
                        let reqs = module_structure(module@, b@).1.map_values(|r: Seq<char>| (module@, r));
                        assert(goal == collapse_queue(q.drop_first() + reqs, strings_view(imported@), functions_view(funcs@), structures_view(structs@)));
                        assert(items.skip(j + 1) + expand(imports_view(work@).skip(i + 1)) =~= q.drop_first() + reqs);
                    }
                }
            } else {
                assert(goal == collapse_queue(q.drop_first(), strings_view(imported@), functions_view(funcs@), structures_view(structs@)));
            }
            j = j + 1;
        }
        assert(items.skip(names@.len() as int) =~= Seq::<BuiltinRef>::empty());
        assert(items.skip(names@.len() as int) + expand(imports_view(work@).skip(i + 1)) =~= expand(imports_view(work@).skip(i + 1)));
        i = i + 1;
    }
    proof {
        assert(imports_view(work@).skip(i as int) =~= Seq::<BuiltInImportView>::empty());
    }
    Ok((funcs, structs))
}

/// Whether each built-in of `r` stands in `a` or is recorded in
/// `imported` already.
pub open spec fn covered(r: Seq<BuiltinRef>, a: Seq<BuiltinRef>, imported: Seq<Seq<char>>) -> bool {
    forall|k: int| 0 <= k < r.len() ==> a.contains(#[trigger] r[k]) || imported.contains(import_id(r[k].0, r[k].1))
}

/// Built-ins asked for again, after they were asked for or brought,
/// change nothing.
proof fn lemma_collapse_skips(
    a: Seq<BuiltinRef>,
    r: Seq<BuiltinRef>,
    b: Seq<BuiltinRef>,
    imported: Seq<Seq<char>>,
    funcs: Seq<FunctionSignatureView>,
    structs: Seq<StructSignatureView>,
)
    requires
        covered(r, a, imported),
    ensures
        collapse_queue(a + r + b, imported, funcs, structs) == collapse_queue(a + b, imported, funcs, structs),
    decreases 3 - imported_structures(imported), a.len() + r.len(),
{
    lemma_imported_structures(imported, seq![], seq![]);
    if a.len() == 0 {
        if r.len() == 0 {
            assert(a + r + b =~= a + b);
        } else {
            let x = r[0];
            assert(imported.contains(import_id(x.0, x.1)));
            let q = a + r + b;
            assert(q[0] == x);
            assert(q.drop_first() =~= a + r.drop_first() + b);
            assert forall|k: int| 0 <= k < r.drop_first().len() implies a.contains(#[trigger] r.drop_first()[k])
                || imported.contains(import_id(r.drop_first()[k].0, r.drop_first()[k].1)) by {
                assert(r.drop_first()[k] == r[k + 1]);
            }
            lemma_collapse_skips(a, r.drop_first(), b, imported, funcs, structs);
        }
    } else {
        let x = a[0];
        let (m, n) = x;
        let id = import_id(m, n);
        let q = a + r + b;
        let p = a + b;
        assert(q[0] == x);
        assert(p[0] == x);
        let a1 = a.drop_first();
        assert(q.drop_first() =~= a1 + r + b);
        assert(p.drop_first() =~= a1 + b);
        lemma_imported_structures(imported, m, n);
        if imported.contains(id) {
            assert forall|k: int| 0 <= k < r.len() implies a1.contains(#[trigger] r[k])
                || imported.contains(import_id(r[k].0, r[k].1)) by {
                if a.contains(r[k]) && r[k] != x {
                    let w = choose|w: int| 0 <= w < a.len() && a[w] == r[k];
                    assert(a1[w - 1] == r[k]);
                }
            }
            lemma_collapse_skips(a1, r, b, imported, funcs, structs);
        } else {
            let imported1 = imported.push(id);
            assert forall|k: int| 0 <= k < r.len() implies a1.contains(#[trigger] r[k])
                || imported1.contains(import_id(r[k].0, r[k].1)) by {
                if r[k] == x {
                    assert(imported1[imported.len() as int] == id);
                } else if a.contains(r[k]) {
                    let w = choose|w: int| 0 <= w < a.len() && a[w] == r[k];
                    assert(a1[w - 1] == r[k]);
                } else {
                    let j = choose|j: int| 0 <= j < imported.len() && imported[j] == import_id(r[k].0, r[k].1);
                    assert(imported1[j] == imported[j]);
                }
            }
            match module_kind(m, n) {
                None => {},
                Some(BuiltinTypes::Function) => {
                    lemma_collapse_skips(a1, r, b, imported1, funcs.push(module_function(m, n)), structs);
                },
                Some(BuiltinTypes::Structure) => {
                    let reqs = module_structure(m, n).1.map_values(|t: Seq<char>| (m, t));
                    assert(a1 + r + b + reqs =~= a1 + r + (b + reqs));
                    assert(a1 + b + reqs =~= a1 + (b + reqs));
                    lemma_collapse_skips(a1, r, b + reqs, imported1, funcs, structs.push(module_structure(m, n).0));
                },
            }
        }
    }
}

/// The built-ins each import asks for stand among those all the imports
/// ask for.
proof fn lemma_expand_contains(imps: Seq<BuiltInImportView>, k: int, j: int)
    requires
        0 <= k < imps.len(),
        0 <= j < import_items(imps[k]).len(),
    ensures
        expand(imps).contains(import_items(imps[k])[j]),
    decreases imps.len(),
{
    let items = import_items(imps[0]);
    if k == 0 {
        assert(expand(imps)[j] == items[j]);
    } else {
        assert(imps.drop_first()[k - 1] == imps[k]);
        lemma_expand_contains(imps.drop_first(), k - 1, j);
        let w = choose|w: int| 0 <= w < expand(imps.drop_first()).len() && expand(imps.drop_first())[w] == import_items(imps[k])[j];
        assert(expand(imps)[items.len() + w] == import_items(imps[k])[j]);
    }
}

/// Importing again what is already imported brings nothing more: the
/// built-ins of a list of imports are those of the list with one of its
/// imports repeated at its end.
pub proof fn lemma_collapse_repeated_import(imps: Seq<BuiltInImportView>, k: int)
    requires
        0 <= k < imps.len(),
    ensures
        collapse_queue(expand(imps.push(imps[k])), seq![], seq![], seq![])
            == collapse_queue(expand(imps), seq![], seq![], seq![]),
{
    let x = imps[k];
    lemma_expand_push(imps, x);
    let a = expand(imps);
    let r = import_items(x);
    assert forall|j: int| 0 <= j < r.len() implies a.contains(#[trigger] r[j])
        || Seq::<Seq<char>>::empty().contains(import_id(r[j].0, r[j].1)) by {
        lemma_expand_contains(imps, k, j);
    }
    lemma_collapse_skips(a, r, seq![], seq![], seq![], seq![]);
    assert(a + r + seq![] =~= a + r);
    assert(a + seq![] =~= a);
}

/// Whether the built-in `b` of module `m` stands among the functions `fs`
/// or the structures `ss`, as its kind says.
pub open spec fn brought(m: Seq<char>, b: Seq<char>, fs: Seq<FunctionSignatureView>, ss: Seq<StructSignatureView>) -> bool {
    match module_kind(m, b) {
        Some(BuiltinTypes::Function) => fs.contains(module_function(m, b)),
        Some(BuiltinTypes::Structure) => ss.contains(module_structure(m, b).0),
        None => true,
    }
}

/// Whether no two functions of `fs` have the same module and name, and no
/// two structures of `ss` the same name.
pub open spec fn distinct_builtins(fs: Seq<FunctionSignatureView>, ss: Seq<StructSignatureView>) -> bool {
    &&& forall|i: int, j: int| 0 <= i < j < fs.len()
        ==> !(#[trigger] fs[i].module == #[trigger] fs[j].module && fs[i].name == fs[j].name)
    &&& forall|i: int, j: int| 0 <= i < j < ss.len() ==> #[trigger] ss[i].name != #[trigger] ss[j].name
}

/// Whether each structure of `ss` has the built-ins it requires among `fs`
/// and `ss`.
pub open spec fn requirements_met(fs: Seq<FunctionSignatureView>, ss: Seq<StructSignatureView>) -> bool {
    forall|m: Seq<char>, b: Seq<char>, k: int|
        module_kind(m, b) == Some(BuiltinTypes::Structure) && ss.contains(#[trigger] module_structure(m, b).0)
            && 0 <= k < module_structure(m, b).1.len()
        ==> brought(m, #[trigger] module_structure(m, b).1[k], fs, ss)
}

/// The names of the built-in modules hold no colon.
proof fn lemma_modules_no_colon(m: Seq<char>, k: int)
    requires
        modules().contains(m),
        0 <= k < m.len(),
    ensures
        m[k] != ':',
{
    lemma_modules(m);
    reveal_strlit("io");
    reveal_strlit("numbers");
    reveal_strlit("strings");
    reveal_strlit("lists");
    reveal_strlit("maths");
    reveal_strlit("files");
    reveal_strlit("clock");
    reveal_strlit("media");
}

/// A built-in that a module has is in that module.
proof fn lemma_kind_module(m: Seq<char>, b: Seq<char>)
    requires
        module_kind(m, b) is Some,
    ensures
        modules().contains(m),
{
    if m == "io"@ { assert(modules()[0] == m); }
    else if m == "numbers"@ { assert(modules()[1] == m); }
    else if m == "strings"@ { assert(modules()[2] == m); }
    else if m == "lists"@ { assert(modules()[3] == m); }
    else if m == "maths"@ { assert(modules()[4] == m); }
    else if m == "files"@ { assert(modules()[5] == m); }
    else if m == "clock"@ { assert(modules()[6] == m); }
    else { assert(modules()[7] == m); }
}

/// The key under which a built-in is recorded tells its module and name.
proof fn lemma_import_id_injective(m1: Seq<char>, b1: Seq<char>, m2: Seq<char>, b2: Seq<char>)
    requires
        module_kind(m1, b1) is Some,
        module_kind(m2, b2) is Some,
        import_id(m1, b1) == import_id(m2, b2),
    ensures
        m1 == m2,
        b1 == b2,
{
    lemma_kind_module(m1, b1);
    lemma_kind_module(m2, b2);
    let id = import_id(m1, b1);
    reveal_strlit(":");
    assert(":"@ =~= seq![':']);
    assert(id[m1.len() as int] == ':');
    assert(import_id(m2, b2)[m2.len() as int] == ':');
    if m1.len() < m2.len() {
        lemma_modules_no_colon(m2, m1.len() as int);
        assert(import_id(m2, b2)[m1.len() as int] == m2[m1.len() as int]);
    } else if m2.len() < m1.len() {
        lemma_modules_no_colon(m1, m2.len() as int);
        assert(id[m2.len() as int] == m1[m2.len() as int]);
    } else {
        assert(m1 =~= id.take(m1.len() as int));
        assert(m2 =~= import_id(m2, b2).take(m2.len() as int));
        assert(b1 =~= id.skip(m1.len() as int + 1));
        assert(b2 =~= import_id(m2, b2).skip(m2.len() as int + 1));
    }
}

/// A built-in function's signature carries its module and name.
pub proof fn lemma_function_key(m: Seq<char>, b: Seq<char>)
    requires
        module_kind(m, b) == Some(BuiltinTypes::Function),
    ensures
        module_function(m, b).module == Some(m),
        module_function(m, b).name == b,
{
    lemma_module_names();
}

/// A built-in structure's signature carries its name, which no other
/// structure has; what it requires are functions of its module.
pub proof fn lemma_structure_key(m: Seq<char>, b: Seq<char>)
    requires
        module_kind(m, b) == Some(BuiltinTypes::Structure),
    ensures
        module_structure(m, b).0.name == b,
        forall|k: int| 0 <= k < module_structure(m, b).1.len()
            ==> module_kind(m, #[trigger] module_structure(m, b).1[k]) == Some(BuiltinTypes::Function),
        (m == "clock"@ && (b == "Instant"@ || b == "Duration"@)) || (m == "media"@ && b == "Canvas"@),
{
    lemma_module_names();
    reveal_strlit("Instant");
    reveal_strlit("Duration");
    reveal_strlit("Canvas");
    reveal_strlit("now");
    reveal_strlit("since");
    reveal_strlit("sleep");
    reveal_strlit("check_event");
    reveal_strlit("update");
    reveal_strlit("set_pixel");
    assert("Instant"@[0] == 'I' && "Duration"@[0] == 'D' && "Canvas"@[0] == 'C');
    assert("now"@[0] == 'n' && "since"@[0] == 's' && "since"@[1] == 'i' && "sleep"@[1] == 'l');
    assert("check_event"@[0] == 'c' && "update"@[0] == 'u' && "set_pixel"@[0] == 's');
    if m == "clock"@ && b == "Duration"@ {
        assert(module_structure(m, b).1 =~= seq!["since"@]);
        assert(module_kind(m, "since"@) == Some(BuiltinTypes::Function));
    }
    if m == "media"@ {
        assert(module_structure(m, b).1 =~= seq!["update"@, "set_pixel"@]);
        assert(module_kind(m, "update"@) == Some(BuiltinTypes::Function));
        assert(module_kind(m, "set_pixel"@) == Some(BuiltinTypes::Function));
    }
}

/// Two structures with the same name are the same.
proof fn lemma_structure_names(m1: Seq<char>, b1: Seq<char>, m2: Seq<char>, b2: Seq<char>)
    requires
        module_kind(m1, b1) == Some(BuiltinTypes::Structure),
        module_kind(m2, b2) == Some(BuiltinTypes::Structure),
        module_structure(m1, b1).0.name == module_structure(m2, b2).0.name,
    ensures
        m1 == m2,
        b1 == b2,
{
    lemma_structure_key(m1, b1);
    lemma_structure_key(m2, b2);
    reveal_strlit("Instant");
    reveal_strlit("Duration");
    reveal_strlit("Canvas");
    assert("Instant"@[0] == 'I' && "Duration"@[0] == 'D' && "Canvas"@[0] == 'C');
}

/// Whether `f` is the signature of a built-in function recorded in `imported`.
pub open spec fn function_recorded(imported: Seq<Seq<char>>, f: FunctionSignatureView) -> bool {
    exists|m: Seq<char>, b: Seq<char>|
        module_kind(m, b) == Some(BuiltinTypes::Function) && imported.contains(import_id(m, b))
            && f == #[trigger] module_function(m, b)
}

/// Whether `st` is the signature of a built-in structure recorded in `imported`.
pub open spec fn structure_recorded(imported: Seq<Seq<char>>, st: StructSignatureView) -> bool {
    exists|m: Seq<char>, b: Seq<char>|
        module_kind(m, b) == Some(BuiltinTypes::Structure) && imported.contains(import_id(m, b))
            && st == #[trigger] module_structure(m, b).0
}

/// Each function of `funcs` is a built-in function recorded in `imported`.
#[verifier::opaque]
pub open spec fn functions_recorded(imported: Seq<Seq<char>>, funcs: Seq<FunctionSignatureView>) -> bool {
    forall|i: int| 0 <= i < funcs.len() ==> function_recorded(imported, #[trigger] funcs[i])
}

/// Each structure of `structs` is a built-in structure recorded in `imported`.
#[verifier::opaque]
pub open spec fn structures_recorded(imported: Seq<Seq<char>>, structs: Seq<StructSignatureView>) -> bool {
    forall|i: int| 0 <= i < structs.len() ==> structure_recorded(imported, #[trigger] structs[i])
}

/// Each built-in recorded in `imported` is brought.
#[verifier::opaque]
pub open spec fn recorded_brought(
    imported: Seq<Seq<char>>,
    funcs: Seq<FunctionSignatureView>,
    structs: Seq<StructSignatureView>,
) -> bool {
    forall|m: Seq<char>, b: Seq<char>| #[trigger] imported.contains(import_id(m, b)) && module_kind(m, b) is Some
        ==> brought(m, b, funcs, structs)
}

/// What a structure recorded in `imported` requires is brought or waits in
/// `queue`.
#[verifier::opaque]
pub open spec fn requirements_pending(
    queue: Seq<BuiltinRef>,
    imported: Seq<Seq<char>>,
    funcs: Seq<FunctionSignatureView>,
    structs: Seq<StructSignatureView>,
) -> bool {
    forall|m: Seq<char>, b: Seq<char>, k: int|
        #![trigger imported.contains(import_id(m, b)), module_structure(m, b).1[k]]
        imported.contains(import_id(m, b)) && module_kind(m, b) == Some(BuiltinTypes::Structure)
            && 0 <= k < module_structure(m, b).1.len()
        ==> brought(m, module_structure(m, b).1[k], funcs, structs) || queue.contains((m, module_structure(m, b).1[k]))
}

/// What the state of `collapse_queue` keeps: the functions and structures
/// brought so far are distinct, each was recorded in `imported`, and each
/// recorded built-in is brought; what a recorded structure requires is
/// brought or still waits in `queue`.
pub open spec fn collapse_state(
    queue: Seq<BuiltinRef>,
    imported: Seq<Seq<char>>,
    funcs: Seq<FunctionSignatureView>,
    structs: Seq<StructSignatureView>,
) -> bool {
    &&& distinct_builtins(funcs, structs)
    &&& functions_recorded(imported, funcs)
    &&& structures_recorded(imported, structs)
    &&& recorded_brought(imported, funcs, structs)
    &&& requirements_pending(queue, imported, funcs, structs)
}

/// Recording one more key keeps every recorded key.
proof fn lemma_record_more(imported: Seq<Seq<char>>, id: Seq<char>)
    ensures
        forall|x: Seq<char>| imported.contains(x) ==> #[trigger] imported.push(id).contains(x),
        imported.push(id).contains(id),
{
    let n = imported.push(id);
    assert(n[imported.len() as int] == id);
    assert forall|x: Seq<char>| imported.contains(x) implies #[trigger] n.contains(x) by {
        let w = choose|w: int| 0 <= w < imported.len() && imported[w] == x;
        assert(n[w] == x);
    }
}

/// Recording one more key keeps the functions recorded.
proof fn lemma_functions_recorded_more(imported: Seq<Seq<char>>, id: Seq<char>, funcs: Seq<FunctionSignatureView>)
    requires
        functions_recorded(imported, funcs),
    ensures
        functions_recorded(imported.push(id), funcs),
{
    reveal(functions_recorded);
    lemma_record_more(imported, id);
    let n = imported.push(id);
    assert forall|i: int| 0 <= i < funcs.len() implies function_recorded(n, #[trigger] funcs[i]) by {
        let (m2, b2) = choose|m2: Seq<char>, b2: Seq<char>|
            module_kind(m2, b2) == Some(BuiltinTypes::Function) && imported.contains(import_id(m2, b2))
                && funcs[i] == #[trigger] module_function(m2, b2);
        assert(n.contains(import_id(m2, b2)));
    }
}

/// Recording one more key keeps the structures recorded.
proof fn lemma_structures_recorded_more(imported: Seq<Seq<char>>, id: Seq<char>, structs: Seq<StructSignatureView>)
    requires
        structures_recorded(imported, structs),
    ensures
        structures_recorded(imported.push(id), structs),
{
    reveal(structures_recorded);
    lemma_record_more(imported, id);
    let n = imported.push(id);
    assert forall|i: int| 0 <= i < structs.len() implies structure_recorded(n, #[trigger] structs[i]) by {
        let (m2, b2) = choose|m2: Seq<char>, b2: Seq<char>|
            module_kind(m2, b2) == Some(BuiltinTypes::Structure) && imported.contains(import_id(m2, b2))
                && structs[i] == #[trigger] module_structure(m2, b2).0;
        assert(n.contains(import_id(m2, b2)));
    }
}

/// A key recorded after one more is that one or was recorded before.
proof fn lemma_recorded_split(imported: Seq<Seq<char>>, id: Seq<char>, x: Seq<char>)
    requires
        imported.push(id).contains(x),
    ensures
        x == id || imported.contains(x),
{
    let n = imported.push(id);
    let w = choose|w: int| 0 <= w < n.len() && n[w] == x;
    if w < imported.len() {
        assert(imported[w] == x);
    }
}

/// Skipping a built-in that was already recorded keeps the state.
proof fn lemma_state_skip(
    queue: Seq<BuiltinRef>,
    imported: Seq<Seq<char>>,
    funcs: Seq<FunctionSignatureView>,
    structs: Seq<StructSignatureView>,
)
    requires
        collapse_state(queue, imported, funcs, structs),
        queue.len() > 0,
        imported.contains(import_id(queue[0].0, queue[0].1)),
    ensures
        collapse_state(queue.drop_first(), imported, funcs, structs),
        module_kind(queue[0].0, queue[0].1) is Some ==> brought(queue[0].0, queue[0].1, funcs, structs),
{
    reveal(recorded_brought);
    reveal(requirements_pending);
    let rest = queue.drop_first();
    assert forall|m2: Seq<char>, b2: Seq<char>, k: int|
        #![trigger imported.contains(import_id(m2, b2)), module_structure(m2, b2).1[k]]
        imported.contains(import_id(m2, b2)) && module_kind(m2, b2) == Some(BuiltinTypes::Structure)
            && 0 <= k < module_structure(m2, b2).1.len()
    implies brought(m2, module_structure(m2, b2).1[k], funcs, structs) || rest.contains((m2, module_structure(m2, b2).1[k])) by {
        let r = module_structure(m2, b2).1[k];
        if !brought(m2, r, funcs, structs) {
            assert(queue.contains((m2, r)));
            let w = choose|w: int| 0 <= w < queue.len() && queue[w] == (m2, r);
            if w == 0 {
                lemma_structure_key(m2, b2);
                assert(module_kind(m2, r) is Some);
                assert(brought(m2, r, funcs, structs));
            } else {
                assert(rest[w - 1] == (m2, r));
            }
        }
    }
    assert(requirements_pending(rest, imported, funcs, structs));
}

/// Bringing a built-in function that was not recorded keeps the state,
/// and keeps what was brought.
proof fn lemma_state_function(
    queue: Seq<BuiltinRef>,
    imported: Seq<Seq<char>>,
    funcs: Seq<FunctionSignatureView>,
    structs: Seq<StructSignatureView>,
)
    requires
        collapse_state(queue, imported, funcs, structs),
        queue.len() > 0,
        !imported.contains(import_id(queue[0].0, queue[0].1)),
        module_kind(queue[0].0, queue[0].1) == Some(BuiltinTypes::Function),
    ensures
        ({
            let (m, b) = queue[0];
            let funcs1 = funcs.push(module_function(m, b));
            &&& collapse_state(queue.drop_first(), imported.push(import_id(m, b)), funcs1, structs)
            &&& brought(m, b, funcs1, structs)
            &&& forall|m2: Seq<char>, b2: Seq<char>| brought(m2, b2, funcs, structs) ==> #[trigger] brought(m2, b2, funcs1, structs)
        }),
{
    let (m, b) = queue[0];
    let rest = queue.drop_first();
    let id = import_id(m, b);
    let f = module_function(m, b);
    let imported1 = imported.push(id);
    let funcs1 = funcs.push(f);
    lemma_function_key(m, b);
    lemma_record_more(imported, id);
    assert(funcs1[funcs.len() as int] == f);
    assert forall|m2: Seq<char>, b2: Seq<char>| brought(m2, b2, funcs, structs) implies #[trigger] brought(m2, b2, funcs1, structs) by {
        if module_kind(m2, b2) == Some(BuiltinTypes::Function) {
            let w = choose|w: int| 0 <= w < funcs.len() && funcs[w] == module_function(m2, b2);
            assert(funcs1[w] == funcs[w]);
        }
    }
    assert(distinct_builtins(funcs1, structs)) by {
        reveal(functions_recorded);
        assert forall|i: int, j: int| 0 <= i < j < funcs1.len()
            implies !(#[trigger] funcs1[i].module == #[trigger] funcs1[j].module && funcs1[i].name == funcs1[j].name) by {
            if j == funcs.len() && funcs1[i].module == f.module && funcs1[i].name == f.name {
                let (m2, b2) = choose|m2: Seq<char>, b2: Seq<char>|
                    module_kind(m2, b2) == Some(BuiltinTypes::Function) && imported.contains(import_id(m2, b2))
                        && funcs[i] == #[trigger] module_function(m2, b2);
                lemma_function_key(m2, b2);
                assert(funcs1[i] == funcs[i]);
            }
        }
    }
    assert(functions_recorded(imported1, funcs1)) by {
        reveal(functions_recorded);
        assert forall|i: int| 0 <= i < funcs1.len() implies function_recorded(imported1, #[trigger] funcs1[i]) by {
            if i < funcs.len() {
                assert(funcs1[i] == funcs[i]);
            }
        }
    }
    lemma_structures_recorded_more(imported, id, structs);
    assert(recorded_brought(imported1, funcs1, structs)) by {
        reveal(recorded_brought);
        assert forall|m2: Seq<char>, b2: Seq<char>| #[trigger] imported1.contains(import_id(m2, b2)) && module_kind(m2, b2) is Some
            implies brought(m2, b2, funcs1, structs) by {
            lemma_recorded_split(imported, id, import_id(m2, b2));
            if import_id(m2, b2) == id {
                lemma_import_id_injective(m, b, m2, b2);
            } else {
                assert(brought(m2, b2, funcs, structs));
            }
        }
    }
    assert(requirements_pending(rest, imported1, funcs1, structs)) by {
        reveal(requirements_pending);
        assert forall|m2: Seq<char>, b2: Seq<char>, k: int|
            #![trigger imported1.contains(import_id(m2, b2)), module_structure(m2, b2).1[k]]
            imported1.contains(import_id(m2, b2)) && module_kind(m2, b2) == Some(BuiltinTypes::Structure)
                && 0 <= k < module_structure(m2, b2).1.len()
        implies brought(m2, module_structure(m2, b2).1[k], funcs1, structs) || rest.contains((m2, module_structure(m2, b2).1[k])) by {
            let r = module_structure(m2, b2).1[k];
            lemma_recorded_split(imported, id, import_id(m2, b2));
            if import_id(m2, b2) == id {
                lemma_import_id_injective(m, b, m2, b2);
            } else if !brought(m2, r, funcs, structs) {
                assert(queue.contains((m2, r)));
                let v = choose|v: int| 0 <= v < queue.len() && queue[v] == (m2, r);
                if v > 0 {
                    assert(rest[v - 1] == (m2, r));
                }
            }
        }
    }
}

/// Bringing a built-in structure that was not recorded, and queueing what
/// it requires, keeps the state, and keeps what was brought.
proof fn lemma_state_structure(
    queue: Seq<BuiltinRef>,
    imported: Seq<Seq<char>>,
    funcs: Seq<FunctionSignatureView>,
    structs: Seq<StructSignatureView>,
)
    requires
        collapse_state(queue, imported, funcs, structs),
        queue.len() > 0,
        !imported.contains(import_id(queue[0].0, queue[0].1)),
        module_kind(queue[0].0, queue[0].1) == Some(BuiltinTypes::Structure),
    ensures
        ({
            let (m, b) = queue[0];
            let queue1 = queue.drop_first() + module_structure(m, b).1.map_values(|t: Seq<char>| (m, t));
            let structs1 = structs.push(module_structure(m, b).0);
            &&& collapse_state(queue1, imported.push(import_id(m, b)), funcs, structs1)
            &&& brought(m, b, funcs, structs1)
            &&& forall|m2: Seq<char>, b2: Seq<char>| brought(m2, b2, funcs, structs) ==> #[trigger] brought(m2, b2, funcs, structs1)
        }),
{
    let (m, b) = queue[0];
    let rest = queue.drop_first();
    let id = import_id(m, b);
    let st = module_structure(m, b).0;
    let reqs = module_structure(m, b).1.map_values(|t: Seq<char>| (m, t));
    let queue1 = rest + reqs;
    let imported1 = imported.push(id);
    let structs1 = structs.push(st);
    lemma_structure_key(m, b);
    lemma_record_more(imported, id);
    assert(structs1[structs.len() as int] == st);
    assert forall|m2: Seq<char>, b2: Seq<char>| brought(m2, b2, funcs, structs) implies #[trigger] brought(m2, b2, funcs, structs1) by {
        if module_kind(m2, b2) == Some(BuiltinTypes::Structure) {
            let w = choose|w: int| 0 <= w < structs.len() && structs[w] == module_structure(m2, b2).0;
            assert(structs1[w] == structs[w]);
        }
    }
    assert(distinct_builtins(funcs, structs1)) by {
        reveal(structures_recorded);
        assert forall|i: int, j: int| 0 <= i < j < structs1.len()
            implies #[trigger] structs1[i].name != #[trigger] structs1[j].name by {
            if j == structs.len() && structs1[i].name == st.name {
                let (m2, b2) = choose|m2: Seq<char>, b2: Seq<char>|
                    module_kind(m2, b2) == Some(BuiltinTypes::Structure) && imported.contains(import_id(m2, b2))
                        && structs[i] == #[trigger] module_structure(m2, b2).0;
                assert(structs1[i] == structs[i]);
                lemma_structure_names(m, b, m2, b2);
            }
        }
    }
    lemma_functions_recorded_more(imported, id, funcs);
    assert(structures_recorded(imported1, structs1)) by {
        reveal(structures_recorded);
        assert forall|i: int| 0 <= i < structs1.len() implies structure_recorded(imported1, #[trigger] structs1[i]) by {
            if i < structs.len() {
                assert(structs1[i] == structs[i]);
            }
        }
    }
    assert(recorded_brought(imported1, funcs, structs1)) by {
        reveal(recorded_brought);
        assert forall|m2: Seq<char>, b2: Seq<char>| #[trigger] imported1.contains(import_id(m2, b2)) && module_kind(m2, b2) is Some
            implies brought(m2, b2, funcs, structs1) by {
            lemma_recorded_split(imported, id, import_id(m2, b2));
            if import_id(m2, b2) == id {
                lemma_import_id_injective(m, b, m2, b2);
            } else {
                assert(brought(m2, b2, funcs, structs));
            }
        }
    }
    assert(requirements_pending(queue1, imported1, funcs, structs1)) by {
        reveal(requirements_pending);
        assert forall|m2: Seq<char>, b2: Seq<char>, k: int|
            #![trigger imported1.contains(import_id(m2, b2)), module_structure(m2, b2).1[k]]
            imported1.contains(import_id(m2, b2)) && module_kind(m2, b2) == Some(BuiltinTypes::Structure)
                && 0 <= k < module_structure(m2, b2).1.len()
        implies brought(m2, module_structure(m2, b2).1[k], funcs, structs1) || queue1.contains((m2, module_structure(m2, b2).1[k])) by {
            let r = module_structure(m2, b2).1[k];
            lemma_recorded_split(imported, id, import_id(m2, b2));
            if import_id(m2, b2) == id {
                lemma_import_id_injective(m, b, m2, b2);
                assert(queue1[rest.len() + k] == (m, r));
            } else if !brought(m2, r, funcs, structs) {
                assert(queue.contains((m2, r)));
                let v = choose|v: int| 0 <= v < queue.len() && queue[v] == (m2, r);
                if v == 0 {
                    lemma_structure_key(m2, b2);
                    assert(module_kind(m2, r) == Some(BuiltinTypes::Function));
                } else {
                    assert(queue1[v - 1] == (m2, r));
                }
            }
        }
    }
}

/// At the end of the queue, the state gives what `collapse_queue` promises:
/// distinct built-ins, each structure with what it requires.
proof fn lemma_state_done(
    imported: Seq<Seq<char>>,
    funcs: Seq<FunctionSignatureView>,
    structs: Seq<StructSignatureView>,
)
    requires
        collapse_state(seq![], imported, funcs, structs),
    ensures
        distinct_builtins(funcs, structs),
        requirements_met(funcs, structs),
{
    reveal(structures_recorded);
    reveal(requirements_pending);
    assert forall|m: Seq<char>, b: Seq<char>, k: int|
        module_kind(m, b) == Some(BuiltinTypes::Structure) && structs.contains(#[trigger] module_structure(m, b).0)
            && 0 <= k < module_structure(m, b).1.len()
    implies brought(m, #[trigger] module_structure(m, b).1[k], funcs, structs) by {
        let i = choose|i: int| 0 <= i < structs.len() && structs[i] == module_structure(m, b).0;
        let (m2, b2) = choose|m2: Seq<char>, b2: Seq<char>|
            module_kind(m2, b2) == Some(BuiltinTypes::Structure) && imported.contains(import_id(m2, b2))
                && structs[i] == #[trigger] module_structure(m2, b2).0;
        lemma_structure_names(m, b, m2, b2);
        assert(imported.contains(import_id(m, b)));
    }
}

/// From a state that `collapse_state` describes, `collapse_queue` brings
/// distinct built-ins, each structure with what it requires, every
/// built-in of the queue, and keeps what was brought before.
proof fn lemma_collapse_state(
    queue: Seq<BuiltinRef>,
    imported: Seq<Seq<char>>,
    funcs: Seq<FunctionSignatureView>,
    structs: Seq<StructSignatureView>,
)
    requires
        collapse_state(queue, imported, funcs, structs),
    ensures
        collapse_queue(queue, imported, funcs, structs) matches Ok((fs, ss)) ==> {
            &&& distinct_builtins(fs, ss)
            &&& requirements_met(fs, ss)
            &&& forall|k: int| 0 <= k < queue.len() ==> brought(#[trigger] queue[k].0, queue[k].1, fs, ss)
            &&& forall|m: Seq<char>, b: Seq<char>| brought(m, b, funcs, structs) ==> #[trigger] brought(m, b, fs, ss)
        },
    decreases 3 - imported_structures(imported), queue.len(),
{
    lemma_imported_structures(imported, seq![], seq![]);
    if queue.len() == 0 {
        assert(queue =~= seq![]);
        lemma_state_done(imported, funcs, structs);
        return;
    }
    let (m, b) = queue[0];
    let rest = queue.drop_first();
    let id = import_id(m, b);
    lemma_imported_structures(imported, m, b);
    if imported.contains(id) {
        lemma_state_skip(queue, imported, funcs, structs);
        lemma_collapse_state(rest, imported, funcs, structs);
        if let Ok((fs, ss)) = collapse_queue(queue, imported, funcs, structs) {
            assert forall|k: int| 0 <= k < queue.len() implies brought(#[trigger] queue[k].0, queue[k].1, fs, ss) by {
                if k == 0 {
                    if module_kind(m, b) is Some {
                        assert(brought(m, b, funcs, structs));
                    }
                } else {
                    assert(queue[k] == rest[k - 1]);
                }
            }
        }
    } else {
        match module_kind(m, b) {
            None => {},
            Some(BuiltinTypes::Function) => {
                let funcs1 = funcs.push(module_function(m, b));
                lemma_state_function(queue, imported, funcs, structs);
                lemma_collapse_state(rest, imported.push(id), funcs1, structs);
                if let Ok((fs, ss)) = collapse_queue(queue, imported, funcs, structs) {
                    assert forall|k: int| 0 <= k < queue.len() implies brought(#[trigger] queue[k].0, queue[k].1, fs, ss) by {
                        if k == 0 {
                            assert(brought(m, b, funcs1, structs));
                        } else {
                            assert(queue[k] == rest[k - 1]);
                        }
                    }
                }
            },
            Some(BuiltinTypes::Structure) => {
                let queue1 = rest + module_structure(m, b).1.map_values(|t: Seq<char>| (m, t));
                let structs1 = structs.push(module_structure(m, b).0);
                lemma_state_structure(queue, imported, funcs, structs);
                lemma_collapse_state(queue1, imported.push(id), funcs, structs1);
                if let Ok((fs, ss)) = collapse_queue(queue, imported, funcs, structs) {
                    assert forall|k: int| 0 <= k < queue.len() implies brought(#[trigger] queue[k].0, queue[k].1, fs, ss) by {
                        if k == 0 {
                            assert(brought(m, b, funcs, structs1));
                        } else {
                            assert(queue[k] == queue1[k - 1]);
                        }
                    }
                }
            },
        }
    }
}

/// Whether the built-in `b` of module `m` was asked for in `asked`, or is
/// required by a structure of `ss`.
pub open spec fn requested(asked: Seq<BuiltinRef>, ss: Seq<StructSignatureView>, m: Seq<char>, b: Seq<char>) -> bool {
    ||| asked.contains((m, b))
    ||| exists|s: Seq<char>, k: int|
        module_kind(m, s) == Some(BuiltinTypes::Structure) && ss.contains(module_structure(m, s).0)
            && 0 <= k < module_structure(m, s).1.len() && #[trigger] module_structure(m, s).1[k] == b
}

/// Whether `f` is the signature of a built-in function that was asked for
/// or that a structure of `ss` requires.
pub open spec fn function_requested(asked: Seq<BuiltinRef>, ss: Seq<StructSignatureView>, f: FunctionSignatureView) -> bool {
    exists|m: Seq<char>, b: Seq<char>|
        module_kind(m, b) == Some(BuiltinTypes::Function) && f == #[trigger] module_function(m, b) && requested(asked, ss, m, b)
}

/// Whether `st` is the signature of a built-in structure that was asked for
/// or that a structure of `ss` requires.
pub open spec fn structure_requested(asked: Seq<BuiltinRef>, ss: Seq<StructSignatureView>, st: StructSignatureView) -> bool {
    exists|m: Seq<char>, b: Seq<char>|
        module_kind(m, b) == Some(BuiltinTypes::Structure) && st == #[trigger] module_structure(m, b).0 && requested(asked, ss, m, b)
}

/// Whether the functions `fs` and structures `ss` hold only built-ins that
/// were asked for in `asked` or that a structure of `ss` requires.
pub open spec fn only_requested(asked: Seq<BuiltinRef>, fs: Seq<FunctionSignatureView>, ss: Seq<StructSignatureView>) -> bool {
    &&& forall|i: int| 0 <= i < fs.len() ==> function_requested(asked, ss, #[trigger] fs[i])
    &&& forall|i: int| 0 <= i < ss.len() ==> structure_requested(asked, ss, #[trigger] ss[i])
}

/// Each recorded built-in was asked for or is required by a structure of `ss`.
#[verifier::opaque]
pub open spec fn recorded_requested(asked: Seq<BuiltinRef>, imported: Seq<Seq<char>>, ss: Seq<StructSignatureView>) -> bool {
    forall|m: Seq<char>, b: Seq<char>| #[trigger] imported.contains(import_id(m, b)) && module_kind(m, b) is Some
        ==> requested(asked, ss, m, b)
}

/// Each built-in of the queue was asked for or is required by a structure of `ss`.
#[verifier::opaque]
pub open spec fn queue_requested(asked: Seq<BuiltinRef>, queue: Seq<BuiltinRef>, ss: Seq<StructSignatureView>) -> bool {
    forall|k: int| 0 <= k < queue.len() ==> requested(asked, ss, #[trigger] queue[k].0, queue[k].1)
}

/// A built-in that was requested stays requested when a structure is added.
proof fn lemma_requested_more(asked: Seq<BuiltinRef>, ss: Seq<StructSignatureView>, st: StructSignatureView, m: Seq<char>, b: Seq<char>)
    requires
        requested(asked, ss, m, b),
    ensures
        requested(asked, ss.push(st), m, b),
{
    if !asked.contains((m, b)) {
        let (s, k) = choose|s: Seq<char>, k: int|
            module_kind(m, s) == Some(BuiltinTypes::Structure) && ss.contains(module_structure(m, s).0)
                && 0 <= k < module_structure(m, s).1.len() && #[trigger] module_structure(m, s).1[k] == b;
        let w = choose|w: int| 0 <= w < ss.len() && ss[w] == module_structure(m, s).0;
        assert(ss.push(st)[w] == ss[w]);
        assert(ss.push(st).contains(module_structure(m, s).0));
    }
}

/// From a state that `collapse_state` describes, where what was recorded
/// or waits in the queue was requested, `collapse_queue` brings only
/// requested built-ins.
proof fn lemma_collapse_only(
    asked: Seq<BuiltinRef>,
    queue: Seq<BuiltinRef>,
    imported: Seq<Seq<char>>,
    funcs: Seq<FunctionSignatureView>,
    structs: Seq<StructSignatureView>,
)
    requires
        collapse_state(queue, imported, funcs, structs),
        recorded_requested(asked, imported, structs),
        queue_requested(asked, queue, structs),
    ensures
        collapse_queue(queue, imported, funcs, structs) matches Ok((fs, ss)) ==> only_requested(asked, fs, ss),
    decreases 3 - imported_structures(imported), queue.len(),
{
    lemma_imported_structures(imported, seq![], seq![]);
    if queue.len() == 0 {
        reveal(functions_recorded);
        reveal(structures_recorded);
        reveal(recorded_requested);
        assert forall|i: int| 0 <= i < funcs.len() implies function_requested(asked, structs, #[trigger] funcs[i]) by {
            assert(function_recorded(imported, funcs[i]));
            let (m, b) = choose|m: Seq<char>, b: Seq<char>|
                module_kind(m, b) == Some(BuiltinTypes::Function) && imported.contains(import_id(m, b))
                    && funcs[i] == #[trigger] module_function(m, b);
            assert(requested(asked, structs, m, b));
        }
        assert forall|i: int| 0 <= i < structs.len() implies structure_requested(asked, structs, #[trigger] structs[i]) by {
            assert(structure_recorded(imported, structs[i]));
            let (m, b) = choose|m: Seq<char>, b: Seq<char>|
                module_kind(m, b) == Some(BuiltinTypes::Structure) && imported.contains(import_id(m, b))
                    && structs[i] == #[trigger] module_structure(m, b).0;
            assert(requested(asked, structs, m, b));
        }
        return;
    }
    let (m, b) = queue[0];
    let rest = queue.drop_first();
    let id = import_id(m, b);
    lemma_imported_structures(imported, m, b);
    assert(requested(asked, structs, m, b)) by {
        reveal(queue_requested);
        assert(queue[0].0 == m && queue[0].1 == b);
    }
    assert(queue_requested(asked, rest, structs)) by {
        reveal(queue_requested);
        assert forall|k: int| 0 <= k < rest.len() implies requested(asked, structs, #[trigger] rest[k].0, rest[k].1) by {
            assert(rest[k] == queue[k + 1]);
        }
    }
    if imported.contains(id) {
        lemma_state_skip(queue, imported, funcs, structs);
        lemma_collapse_only(asked, rest, imported, funcs, structs);
    } else {
        match module_kind(m, b) {
            None => {},
            Some(BuiltinTypes::Function) => {
                let imported1 = imported.push(id);
                lemma_state_function(queue, imported, funcs, structs);
                assert(recorded_requested(asked, imported1, structs)) by {
                    reveal(recorded_requested);
                    assert forall|m2: Seq<char>, b2: Seq<char>| #[trigger] imported1.contains(import_id(m2, b2)) && module_kind(m2, b2) is Some
                        implies requested(asked, structs, m2, b2) by {
                        lemma_recorded_split(imported, id, import_id(m2, b2));
                        if import_id(m2, b2) == id {
                            lemma_import_id_injective(m, b, m2, b2);
                        }
                    }
                }
                lemma_collapse_only(asked, rest, imported1, funcs.push(module_function(m, b)), structs);
            },
            Some(BuiltinTypes::Structure) => {
                let st = module_structure(m, b).0;
                let reqs = module_structure(m, b).1.map_values(|t: Seq<char>| (m, t));
                let queue1 = rest + reqs;
                let imported1 = imported.push(id);
                let structs1 = structs.push(st);
                lemma_state_structure(queue, imported, funcs, structs);
                assert(structs1[structs.len() as int] == st);
                assert(recorded_requested(asked, imported1, structs1)) by {
                    reveal(recorded_requested);
                    assert forall|m2: Seq<char>, b2: Seq<char>| #[trigger] imported1.contains(import_id(m2, b2)) && module_kind(m2, b2) is Some
                        implies requested(asked, structs1, m2, b2) by {
                        lemma_recorded_split(imported, id, import_id(m2, b2));
                        if import_id(m2, b2) == id {
                            lemma_import_id_injective(m, b, m2, b2);
                        }
                        lemma_requested_more(asked, structs, st, m2, b2);
                    }
                }
                assert(queue_requested(asked, queue1, structs1)) by {
                    reveal(queue_requested);
                    assert forall|k: int| 0 <= k < queue1.len() implies requested(asked, structs1, #[trigger] queue1[k].0, queue1[k].1) by {
                        if k < rest.len() {
                            assert(queue1[k] == rest[k]);
                            lemma_requested_more(asked, structs, st, rest[k].0, rest[k].1);
                        } else {
                            let j = k - rest.len();
                            assert(queue1[k] == reqs[j]);
                            assert(structs1.contains(st));
                            assert(module_structure(m, b).1[j] == queue1[k].1);
                        }
                    }
                }
                lemma_collapse_only(asked, queue1, imported1, funcs, structs1);
            },
        }
    }
}

/// What importing built-ins brings: no function twice (by module and
/// name) and no structure twice (by name); every built-in that an import
/// asks for; what each structure brought requires; and nothing else.
pub proof fn lemma_collapse_complete(imps: Seq<BuiltInImportView>)
    ensures
        collapse_queue(expand(imps), seq![], seq![], seq![]) matches Ok((fs, ss)) ==> {
            &&& distinct_builtins(fs, ss)
            &&& requirements_met(fs, ss)
            &&& forall|k: int| 0 <= k < expand(imps).len()
                ==> brought(#[trigger] expand(imps)[k].0, expand(imps)[k].1, fs, ss)
            &&& only_requested(expand(imps), fs, ss)
        },
{
    reveal(functions_recorded);
    reveal(structures_recorded);
    reveal(recorded_brought);
    reveal(requirements_pending);
    reveal(recorded_requested);
    reveal(queue_requested);
    let asked = expand(imps);
    assert forall|k: int| 0 <= k < asked.len() implies requested(asked, seq![], #[trigger] asked[k].0, asked[k].1) by {
        assert(asked.contains((asked[k].0, asked[k].1)));
    }
    lemma_collapse_state(asked, seq![], seq![], seq![]);
    lemma_collapse_only(asked, asked, seq![], seq![], seq![]);
}

/// Every built-in that a module lists is a function or a structure of it.
proof fn lemma_listed_known(m: Seq<char>, b: Seq<char>)
    requires
        module_builtins(m).contains(b),
    ensures
        module_kind(m, b) is Some,
{
    let k = choose|k: int| 0 <= k < module_builtins(m).len() && module_builtins(m)[k] == b;
    if m == "io"@ { assert(io::builtins()[k] == b); }
    else if m == "numbers"@ { assert(numbers::builtins()[k] == b); }
    else if m == "strings"@ { assert(strings::builtins()[k] == b); }
    else if m == "lists"@ { assert(lists::builtins()[k] == b); }
    else if m == "maths"@ { assert(maths::builtins()[k] == b); }
    else if m == "files"@ { assert(files::builtins()[k] == b); }
    else if m == "clock"@ { assert(clock::builtins()[k] == b); }
    else if m == "media"@ { assert(media::builtins()[k] == b); }
}

/// When no built-in of `v` from index `i` on is missing, the module lists
/// each of them.
proof fn lemma_none_missing(m: Seq<char>, v: Seq<Seq<char>>, i: int, j: int)
    requires
        0 <= i <= j < v.len(),
        first_missing(m, v, i) is None,
    ensures
        module_builtins(m).contains(v[j]),
    decreases j - i,
{
    if i < j {
        lemma_none_missing(m, v, i + 1, j);
    }
}

/// Each built-in that a valid import asks for is a function or a structure
/// of its module.
proof fn lemma_valid_import_known(imp: BuiltInImportView, k: int)
    requires
        import_check(imp) is Ok,
        0 <= k < import_items(imp).len(),
    ensures
        import_items(imp)[k].0 == imp.module,
        module_kind(imp.module, import_items(imp)[k].1) is Some,
{
    match imp.builtins {
        Some(v) => {
            lemma_none_missing(imp.module, v, 0, k);
            lemma_listed_known(imp.module, v[k]);
        },
        None => {
            assert(module_builtins(imp.module).contains(module_builtins(imp.module)[k]));
            lemma_listed_known(imp.module, module_builtins(imp.module)[k]);
        },
    }
}

/// Each built-in that valid imports ask for is a function or a structure
/// of its module.
proof fn lemma_expanded_known(imps: Seq<BuiltInImportView>, k: int)
    requires
        forall|i: int| 0 <= i < imps.len() ==> #[trigger] import_check(imps[i]) is Ok,
        0 <= k < expand(imps).len(),
    ensures
        module_kind(expand(imps)[k].0, expand(imps)[k].1) is Some,
    decreases imps.len(),
{
    let first = import_items(imps[0]);
    assert(import_check(imps[0]) is Ok);
    if k < first.len() {
        assert(expand(imps)[k] == first[k]);
        lemma_valid_import_known(imps[0], k);
    } else {
        let rest = imps.drop_first();
        assert forall|i: int| 0 <= i < rest.len() implies #[trigger] import_check(rest[i]) is Ok by {
            assert(rest[i] == imps[i + 1]);
        }
        assert(expand(imps)[k] == expand(rest)[k - first.len()]);
        lemma_expanded_known(rest, k - first.len());
    }
}

/// A queue of built-ins that their modules have collapses without error.
proof fn lemma_collapse_ok(
    queue: Seq<BuiltinRef>,
    imported: Seq<Seq<char>>,
    funcs: Seq<FunctionSignatureView>,
    structs: Seq<StructSignatureView>,
)
    requires
        forall|k: int| 0 <= k < queue.len() ==> module_kind(#[trigger] queue[k].0, queue[k].1) is Some,
    ensures
        collapse_queue(queue, imported, funcs, structs) is Ok,
    decreases 3 - imported_structures(imported), queue.len(),
{
    lemma_imported_structures(imported, seq![], seq![]);
    if queue.len() > 0 {
        let (m, b) = queue[0];
        let rest = queue.drop_first();
        let id = import_id(m, b);
        lemma_imported_structures(imported, m, b);
        assert(module_kind(queue[0].0, queue[0].1) is Some);
        assert forall|k: int| 0 <= k < rest.len() implies module_kind(#[trigger] rest[k].0, rest[k].1) is Some by {
            assert(rest[k] == queue[k + 1]);
        }
        if imported.contains(id) {
            lemma_collapse_ok(rest, imported, funcs, structs);
        } else if module_kind(m, b) == Some(BuiltinTypes::Function) {
            lemma_collapse_ok(rest, imported.push(id), funcs.push(module_function(m, b)), structs);
        } else {
            let reqs = module_structure(m, b).1.map_values(|t: Seq<char>| (m, t));
            let queue1 = rest + reqs;
            lemma_structure_key(m, b);
            assert forall|k: int| 0 <= k < queue1.len() implies module_kind(#[trigger] queue1[k].0, queue1[k].1) is Some by {
                if k < rest.len() {
                    assert(queue1[k] == rest[k]);
                } else {
                    assert(queue1[k] == reqs[k - rest.len()]);
                }
            }
            lemma_collapse_ok(queue1, imported.push(id), funcs, structs.push(module_structure(m, b).0));
        }
    }
}

/// Imports that are all valid collapse without error.
pub proof fn lemma_valid_imports_collapse(imps: Seq<BuiltInImportView>)
    requires
        forall|i: int| 0 <= i < imps.len() ==> #[trigger] import_check(imps[i]) is Ok,
    ensures
        collapse_queue(expand(imps), seq![], seq![], seq![]) is Ok,
{
    assert forall|k: int| 0 <= k < expand(imps).len() implies module_kind(#[trigger] expand(imps)[k].0, expand(imps)[k].1) is Some by {
        lemma_expanded_known(imps, k);
    }
    lemma_collapse_ok(expand(imps), seq![], seq![], seq![]);
}

/// What each built-in module holds, by name and in order, and which of its
/// built-ins are structures: `Instant` and `Duration` of `clock` and
/// `Canvas` of `media`; all the others are functions. A module has a
/// built-in exactly when it lists it.
pub proof fn lemma_module_contents(m: Seq<char>, b: Seq<char>)
    ensures
        module_builtins("io"@) == seq!["print"@, "read"@],
        module_builtins("numbers"@) == seq!["to_string"@, "floor"@, "ceil"@, "round"@],
        module_builtins("strings"@) == seq!["to_num"@, "len"@, "insert"@, "push"@, "remove"@, "split"@, "get"@],
        module_builtins("lists"@) == seq!["set"@, "get"@, "push"@, "pull"@, "len"@],
        module_builtins("maths"@) == seq!["pow"@, "sqrt"@],
        module_builtins("files"@) == seq!["load"@, "save"@],
        module_builtins("clock"@) == seq!["now"@, "since"@, "sleep"@, "Instant"@, "Duration"@],
        module_builtins("media"@) == seq!["Canvas"@, "check_event"@, "update"@, "set_pixel"@, "set_rect"@],
        modules().contains(m) ==> (module_kind(m, b) is Some <==> module_builtins(m).contains(b)),
        module_kind(m, b) == Some(BuiltinTypes::Structure)
            <==> ((m == "clock"@ && (b == "Instant"@ || b == "Duration"@)) || (m == "media"@ && b == "Canvas"@)),
        module_kind(m, b) is Some ==> modules().contains(m),
{
    lemma_module_names();
    if module_builtins(m).contains(b) {
        lemma_listed_known(m, b);
    }
    if module_kind(m, b) is Some {
        lemma_kind_module(m, b);
        if m == "io"@ {
            assert(module_builtins(m)[0] == "print"@);
            assert(module_builtins(m)[1] == "read"@);
        }
        if m == "numbers"@ {
            assert(module_builtins(m)[0] == "to_string"@);
            assert(module_builtins(m)[1] == "floor"@);
            assert(module_builtins(m)[2] == "ceil"@);
            assert(module_builtins(m)[3] == "round"@);
        }
        if m == "strings"@ {
            assert(module_builtins(m)[0] == "to_num"@);
            assert(module_builtins(m)[1] == "len"@);
            assert(module_builtins(m)[2] == "insert"@);
            assert(module_builtins(m)[3] == "push"@);
            assert(module_builtins(m)[4] == "remove"@);
            assert(module_builtins(m)[5] == "split"@);
            assert(module_builtins(m)[6] == "get"@);
        }
        if m == "lists"@ {
            assert(module_builtins(m)[0] == "set"@);
            assert(module_builtins(m)[1] == "get"@);
            assert(module_builtins(m)[2] == "push"@);
            assert(module_builtins(m)[3] == "pull"@);
            assert(module_builtins(m)[4] == "len"@);
        }
        if m == "maths"@ {
            assert(module_builtins(m)[0] == "pow"@);
            assert(module_builtins(m)[1] == "sqrt"@);
        }
        if m == "files"@ {
            assert(module_builtins(m)[0] == "load"@);
            assert(module_builtins(m)[1] == "save"@);
        }
        if m == "clock"@ {
            assert(module_builtins(m)[0] == "now"@);
            assert(module_builtins(m)[1] == "since"@);
            assert(module_builtins(m)[2] == "sleep"@);
            assert(module_builtins(m)[3] == "Instant"@);
            assert(module_builtins(m)[4] == "Duration"@);
        }
        if m == "media"@ {
            assert(module_builtins(m)[0] == "Canvas"@);
            assert(module_builtins(m)[1] == "check_event"@);
            assert(module_builtins(m)[2] == "update"@);
            assert(module_builtins(m)[3] == "set_pixel"@);
            assert(module_builtins(m)[4] == "set_rect"@);
        }
        assert(module_builtins(m).contains(b));
    }
    if module_kind(m, b) == Some(BuiltinTypes::Structure) {
        lemma_structure_key(m, b);
    }
    reveal_strlit("Instant");
    reveal_strlit("Duration");
    reveal_strlit("Canvas");
    reveal_strlit("now");
    reveal_strlit("since");
    reveal_strlit("sleep");
    assert("Instant"@[0] == 'I' && "Duration"@[0] == 'D' && "Canvas"@[0] == 'C');
    assert("now"@[0] == 'n' && "since"@[0] == 's' && "sleep"@[0] == 's');
    assert(module_kind("clock"@, "Instant"@) == Some(BuiltinTypes::Structure));
    assert(module_kind("clock"@, "Duration"@) == Some(BuiltinTypes::Structure));
    assert(module_kind("media"@, "Canvas"@) == Some(BuiltinTypes::Structure));
}

} // verus!
