use slothlang::builtins::media::{requested_event, EventKind};
use slothlang::builtins::{BuiltInImport, BuiltinTypes, collapse_imports, is_module, builtins_of, module_get_type};
use slothlang::builtins::{io, clock, media};
use slothlang::sloth::program::SlothProgram;
use slothlang::sloth::types::Type;

fn names(v: &Vec<slothlang::builtins::BuiltInFunction>) -> Vec<String> {
    v.iter().map(|f| f.signature.name.clone()).collect()
}

#[test]
fn module_registry() {
    assert!(is_module("io"));
    assert!(!is_module("random"));
    assert!(!is_module("web"));
    assert_eq!(builtins_of("io"), vec!["print".to_string(), "read".to_string()]);
    assert!(matches!(module_get_type("clock", &"Instant".to_string()), Ok(BuiltinTypes::Structure)));
    assert_eq!(
        io::get_type(&"write".to_string()).err().unwrap(),
        "Builtin 'write' not found in module 'io'"
    );
    // the clock module names its structures' module 'file', and its errors 'files'
    assert_eq!(
        clock::get_type(&"tick".to_string()).err().unwrap(),
        "Builtin 'tick' not found in module 'files'"
    );
    let (sig, reqs) = clock::get_struct("Duration".to_string());
    assert_eq!(sig.module, Some("file".to_string()));
    assert_eq!(reqs, vec!["since".to_string()]);
    let f = io::get_function("read".to_string());
    assert_eq!(f.signature.module, Some("io".to_string()));
    assert!(matches!(f.signature.output_type, Some(Type::String)));
}

#[test]
fn import_validity() {
    assert!(BuiltInImport::new("io".to_string(), None).is_valid().is_ok());
    assert!(BuiltInImport::new("io".to_string(), Some(vec!["print".to_string()])).is_valid().is_ok());
    assert_eq!(
        BuiltInImport::new("web".to_string(), None).is_valid().err().unwrap(),
        "Built-in module 'web' does not exists"
    );
    assert_eq!(
        BuiltInImport::new("io".to_string(), Some(vec!["print".to_string(), "fly".to_string(), "x".to_string()]))
            .is_valid()
            .err()
            .unwrap(),
        "Built-in 'fly' does not exists in the module 'io'"
    );
}

#[test]
fn collapses_whole_modules() {
    let (f, s) = collapse_imports(vec![BuiltInImport::new("io".to_string(), None)]).ok().unwrap();
    assert_eq!(names(&f), vec!["print".to_string(), "read".to_string()]);
    assert_eq!(s.len(), 0);
}

#[test]
fn repeated_imports_bring_nothing_more() {
    let once = collapse_imports(vec![
        BuiltInImport::new("io".to_string(), None),
        BuiltInImport::new("clock".to_string(), None),
    ])
    .ok()
    .unwrap();
    let twice = collapse_imports(vec![
        BuiltInImport::new("io".to_string(), None),
        BuiltInImport::new("clock".to_string(), None),
        BuiltInImport::new("io".to_string(), Some(vec!["print".to_string()])),
        BuiltInImport::new("io".to_string(), None),
    ])
    .ok()
    .unwrap();
    assert_eq!(names(&once.0), names(&twice.0));
    assert_eq!(once.1.len(), twice.1.len());
    assert_eq!(names(&once.0), vec!["print", "read", "now", "since", "sleep"]);
    let structs: Vec<String> = once.1.iter().map(|s| s.name.clone()).collect();
    assert_eq!(structs, vec!["Instant", "Duration"]);
}

#[test]
fn structures_bring_what_they_require() {
    // Duration requires the function since
    let (f, s) = collapse_imports(vec![BuiltInImport::new("clock".to_string(), Some(vec!["Duration".to_string()]))])
        .ok()
        .unwrap();
    assert_eq!(names(&f), vec!["since"]);
    assert_eq!(s.len(), 1);
    let (f, s) = collapse_imports(vec![BuiltInImport::new("media".to_string(), Some(vec!["Canvas".to_string()]))])
        .ok()
        .unwrap();
    assert_eq!(names(&f), vec!["update", "set_pixel"]);
    assert_eq!(s[0].name, "Canvas");
    let (sig, reqs) = media::get_struct("Canvas".to_string());
    assert_eq!(sig.name, "Canvas");
    assert_eq!(reqs.len(), 2);
}

#[test]
fn collapse_reports_missing_builtins() {
    let e = collapse_imports(vec![BuiltInImport::new("io".to_string(), Some(vec!["fly".to_string()]))]).err().unwrap();
    assert_eq!(e, "Builtin 'fly' not found in module 'io'");
}

#[test]
fn program_imports() {
    let mut p = SlothProgram::new("main".to_string(), true);
    p.add_import(BuiltInImport::new("maths".to_string(), None));
    p.add_import(BuiltInImport::new("maths".to_string(), None));
    let (f, s) = p.import_builtins().ok().unwrap();
    assert!(f.len() > 0);
    assert_eq!(s.len(), 0);
    p.add_import(BuiltInImport::new("web".to_string(), None));
    assert_eq!(p.import_builtins().err().unwrap(), "Built-in module 'web' does not exists");
}

#[test]
fn random_is_no_importable_module() {
    assert_eq!(
        BuiltInImport::new("random".to_string(), None).is_valid().err().unwrap(),
        "Built-in module 'random' does not exists"
    );
}

#[test]
fn valid_imports_collapse_to_distinct_builtins() {
    let modules = ["io", "numbers", "strings", "lists", "maths", "files", "clock", "media"];
    let mut imports = Vec::new();
    for m in modules.iter() {
        imports.push(BuiltInImport::new(m.to_string(), None));
    }
    imports.push(BuiltInImport::new("clock".to_string(), Some(vec!["Duration".to_string(), "since".to_string()])));
    imports.push(BuiltInImport::new("media".to_string(), Some(vec!["Canvas".to_string()])));
    for i in &imports {
        assert!(i.is_valid().is_ok());
    }
    let (f, s) = collapse_imports(imports).ok().unwrap();
    for i in 0..f.len() {
        for j in (i + 1)..f.len() {
            assert!(!(f[i].signature.module == f[j].signature.module && f[i].signature.name == f[j].signature.name));
        }
    }
    for i in 0..s.len() {
        for j in (i + 1)..s.len() {
            assert_ne!(s[i].name, s[j].name);
        }
    }
    let has = |m: &str, n: &str| f.iter().any(|x| x.signature.module.as_deref() == Some(m) && x.signature.name == n);
    assert!(has("clock", "since"));
    assert!(has("media", "update"));
    assert!(has("media", "set_pixel"));
    assert!(has("io", "print"));
    let mut structure_names: Vec<String> = s.iter().map(|x| x.name.clone()).collect();
    structure_names.sort();
    assert_eq!(structure_names, vec!["Canvas", "Duration", "Instant"]);
}

#[test]
fn event_names() {
    assert!(requested_event("EVENT_QUIT").ok() == Some(EventKind::Quit));
    let e = requested_event("EVENT_KEY").err().unwrap();
    assert_eq!(e.message.get_title(), "INVALID ARGUMENTS");
    assert_eq!(e.message.to_string(), "Event 'EVENT_KEY' does not exists");
    assert_eq!(e.position_trace.len(), 0);
}
