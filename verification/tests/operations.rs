use slothlang::operations::{div, modulo};
use slothlang::operations::{inv, mul};
use slothlang::operations::{get_all, OperatorFunction, add, cmp, len};
use slothlang::lexer::operator::Operator;
use slothlang::sloth::types::Type;

#[test]
fn operation_signatures() {
    let f = OperatorFunction::new(Operator::Sub, vec![Type::Number, Type::String], Type::Boolean);
    assert_eq!(f.signature.name, "@sub");
    assert!(f.signature.module.is_none());
    let inputs = f.signature.input_types.as_ref().unwrap();
    assert_eq!(inputs.len(), 2);
    assert!(inputs.iter().all(|(_, by_ref)| !by_ref));
    let types = f.get_input_types().unwrap();
    assert!(matches!(types[1], Type::String));
    assert!(matches!(f.signature.output_type, Some(Type::Boolean)));
}

#[test]
fn operation_tables() {
    assert_eq!(add::get_all().len(), 5);
    let c = cmp::get_all();
    assert_eq!(c.len(), 11);
    assert_eq!(c.iter().filter(|f| f.operator == Operator::Ge).count(), 2);
    let l = len::get_all();
    assert!(matches!(l[1].get_input_types().unwrap()[0], Type::List(_)));
    let all = get_all();
    assert_eq!(all.len(), 5 + 11 + 1 + 1 + 2 + 1 + 2 + 1);
    assert_eq!(all[0].signature.name, "@add");
    assert_eq!(all[16].signature.name, "@mod");
    assert_eq!(all[17].signature.name, "@sub");
    assert_eq!(all[20].signature.name, "@div");
    assert_eq!(all[all.len() - 1].signature.name, "@inv");
}

#[test]
fn operations_on_booleans_and_strings() {
    assert_eq!(add::add_strings("ab", "cd"), "abcd");
    assert_eq!(add::add_strings("", "x"), "x");
    assert!(add::add_booleans(true, false));
    assert!(!add::add_booleans(false, false));
    assert!(!cmp::and_booleans(true, false));
    assert!(cmp::or_booleans(false, true));
    assert!(mul::mul_booleans(true, true));
    assert!(!mul::mul_booleans(true, false));
    assert!(!inv::inv_boolean(true));
    let pairs = [("abc", "abd"), ("ab", "abc"), ("b", "abc"), ("", ""), ("é", "z"), ("Z", "a"), ("same", "same")];
    for (x, y) in pairs.iter() {
        let (x, y) = (x.to_string(), y.to_string());
        assert_eq!(cmp::gr_strings(&x, &y), x > y);
        assert_eq!(cmp::ge_strings(&x, &y), x >= y);
        assert_eq!(cmp::lw_strings(&x, &y), x < y);
        assert_eq!(cmp::le_strings(&x, &y), x <= y);
    }
}

#[test]
fn division_and_modulo_operations() {
    let d = div::get_all();
    assert_eq!(d.len(), 1);
    assert_eq!(d[0].signature.name, "@div");
    assert!(matches!(d[0].signature.output_type, Some(Type::Number)));
    let m = modulo::get_all();
    assert_eq!(m.len(), 1);
    assert_eq!(m[0].signature.name, "@mod");
    assert!(matches!(m[0].get_input_types().unwrap()[1], Type::Number));
}
