use slothlang::lexer::get_token_stream;
use slothlang::lexer::tokenstream::TokenStream;
use slothlang::parser::expression::parse_expression;
use slothlang::parser::statement::parse_statement;
use slothlang::parser::types::parse_type;
use slothlang::parser::function::parse_function;
use slothlang::parser::structure::parse_structure;
use slothlang::parser::builtin::parse_builtin;
use slothlang::parser::statics::{parse_static_expr, static_name_warning};
use slothlang::parser::import::parse_import;
use slothlang::parser::{parse_file, check_semicolon, expect_token, current_equal, module_check, wrong_token, FileStep, program_for, module_name_for};
use slothlang::lexer::token::Token;
use slothlang::lexer::keyword::Keyword;
use slothlang::lexer::separator::Separator;
use slothlang::position::Position;
use slothlang::sloth::expression::Expression;
use slothlang::sloth::statement::Statement;
use slothlang::sloth::program::SlothProgram;
use slothlang::sloth::types::Type;

fn stream(text: &str) -> TokenStream {
    get_token_stream("test.slo", text).ok().unwrap()
}

fn program() -> SlothProgram {
    SlothProgram::new("test".to_string(), true)
}

fn span(e: &Expression) -> (usize, usize, Option<usize>) {
    let p = e.get_pos();
    (p.line, p.first_column, p.last_column)
}

#[test]
fn parses_an_operation() {
    let mut s = stream("+ 1 * x 2");
    let mut p = program();
    let e = parse_expression(&mut s, &mut p, true, None).ok().unwrap();
    match e {
        Expression::FunctionCall(None, sign, args, pos) => {
            assert_eq!(sign.name, "@add");
            assert!(sign.module.is_none());
            assert_eq!(sign.input_types.unwrap().len(), 0);
            assert!(matches!(sign.output_type, Some(Type::Any)));
            assert_eq!(args.len(), 2);
            assert!(matches!(&args[0], Expression::Literal(ref v, _) if v == "1"));
            assert!(matches!(&args[1], Expression::FunctionCall(None, ref s2, ref a2, _) if s2.name == "@mul" && a2.len() == 2));
            assert_eq!((pos.first_column, pos.last_column), (0, Some(8)));
        },
        _ => panic!("not a call"),
    }
    assert!(s.current().is_none());
}

#[test]
fn parses_one_operand_operations() {
    let mut s = stream("! b");
    let mut p = program();
    let e = parse_expression(&mut s, &mut p, true, None).ok().unwrap();
    assert!(matches!(e, Expression::FunctionCall(None, ref sign, ref args, _) if sign.name == "@inv" && args.len() == 1));
}

#[test]
fn parses_lists_and_accesses() {
    let mut s = stream("[1 2 3][0]");
    let mut p = program();
    let e = parse_expression(&mut s, &mut p, true, None).ok().unwrap();
    match e {
        Expression::BracketAccess(list, index, pos) => {
            assert!(matches!(*list, Expression::ListInit(ref v, _) if v.len() == 3));
            assert!(matches!(*index, Expression::Literal(ref v, _) if v == "0"));
            assert_eq!((pos.first_column, pos.last_column), (7, Some(9)));
        },
        _ => panic!("not an access"),
    }
}

#[test]
fn parses_calls_fields_and_methods() {
    let mut s = stream("io:print(x.len() \"a\")");
    let mut p = program();
    let e = parse_expression(&mut s, &mut p, true, None).ok().unwrap();
    match e {
        Expression::FunctionCall(None, sign, args, pos) => {
            assert_eq!(sign.module, Some("io".to_string()));
            assert_eq!(sign.name, "print");
            assert!(sign.input_types.is_none());
            assert_eq!(args.len(), 2);
            match &args[0] {
                Expression::FunctionCall(Some(first), m, margs, _) => {
                    assert_eq!(m.name, "len");
                    assert_eq!(margs.len(), 0);
                    assert!(matches!(**first, Expression::VariableAccess(None, ref n, _) if n == "x"));
                },
                _ => panic!("not a method call"),
            }
            assert_eq!((pos.first_column, pos.last_column), (0, Some(20)));
        },
        _ => panic!("not a call"),
    }
    let mut s = stream("a.b");
    let e = parse_expression(&mut s, &mut p, true, None).ok().unwrap();
    assert!(matches!(e, Expression::VariableAccess(Some(_), ref n, _) if n == "b"));
}

#[test]
fn parses_object_constructions() {
    let mut s = stream("new geo:Point(1 2)");
    let mut p = program();
    let e = parse_expression(&mut s, &mut p, true, None).ok().unwrap();
    match e {
        Expression::ObjectConstruction(sign, args, pos) => {
            assert_eq!(sign.module, Some("geo".to_string()));
            assert_eq!(sign.name, "Point");
            assert_eq!(args.len(), 2);
            assert_eq!((pos.first_column, pos.last_column), (0, Some(17)));
        },
        _ => panic!("not a construction"),
    }
    assert_eq!(span(&parse_expression(&mut stream("new P()"), &mut p, true, None).ok().unwrap()), (0, 0, Some(6)));
}

#[test]
fn expression_errors() {
    let mut p = program();
    let e = parse_expression(&mut stream(")"), &mut p, true, None).err().unwrap();
    assert_eq!(e.message.to_string(), "Expected expression, got unexpected separator ')'");
    let e = parse_expression(&mut stream("[1 2"), &mut p, true, None).err().unwrap();
    assert_eq!(e.message.to_string(), "Unexpected end of file");
    assert_eq!(e.message.get_title(), "UNEXPECTED EOF");
    assert_eq!(e.position_trace.len(), 0);
    let e = parse_expression(&mut stream("new 3()"), &mut p, true, None).err().unwrap();
    assert_eq!(e.message.to_string(), "Expected structure, got unexpected literal '3'");
}

#[test]
fn parses_types() {
    let mut p = program();
    let (t, pos) = parse_type(&mut stream("list[list[num]]"), &mut p, &None, true).ok().unwrap();
    assert!(matches!(t, Type::List(ref a) if matches!(**a, Type::List(ref b) if matches!(**b, Type::Number))));
    assert_eq!((pos.first_column, pos.last_column), (0, Some(14)));
    let (t, _) = parse_type(&mut stream("Point"), &mut p, &None, true).ok().unwrap();
    assert!(matches!(t, Type::Object(ref n) if n == "Point"));
    let e = parse_type(&mut stream("list(num)"), &mut p, &None, true).err().unwrap();
    assert_eq!(e.message.to_string(), "Expected '[', got unexpected separator '('");
}

#[test]
fn parses_statements() {
    let mut p = program();
    let mut s = stream("x = + x 1; f(x);");
    let st = parse_statement(&mut s, &mut p, true).ok().unwrap();
    assert!(matches!(st, Statement::Assignment(_, _, ref pos) if pos.first_column == 0 && pos.last_column == Some(8)));
    let st = parse_statement(&mut s, &mut p, true).ok().unwrap();
    assert!(matches!(st, Statement::ExpressionCall(_, _)));
    assert!(s.current().is_none());
    assert_eq!(p.warnings.len(), 0);
}

#[test]
fn missing_semicolon_warns() {
    let mut p = program();
    let mut s = stream("x = 1 y = 2;");
    parse_statement(&mut s, &mut p, true).ok().unwrap();
    assert_eq!(p.warnings.len(), 1);
    assert_eq!(p.warnings[0].text, "Use of a semicolon here is highly recommended");
    let wp = p.warnings[0].position.as_ref().unwrap();
    assert_eq!((wp.first_column, wp.last_column), (0, Some(4)));
    let mut q = program();
    parse_statement(&mut stream("x = 1 y = 2;"), &mut q, false).ok().unwrap();
    assert_eq!(q.warnings.len(), 0);
}

#[test]
fn parses_flow_control() {
    let mut p = program();
    let mut s = stream("while <= i 3 { i = + i 1; if == i 2 { f(); }; };");
    let st = parse_statement(&mut s, &mut p, true).ok().unwrap();
    match st {
        Statement::While(_, body, pos) => {
            assert_eq!(body.len(), 2);
            assert!(matches!(body[1], Statement::If(_, ref inner, _) if inner.len() == 1));
            assert_eq!((pos.first_column, pos.last_column), (0, Some(46)));
        },
        _ => panic!("not a while"),
    }
    assert!(s.current().is_none());
    let e = parse_statement(&mut stream("} x"), &mut p, true).err().unwrap();
    assert_eq!(e.message.to_string(), "Expected statement, got unexpected separator '}'");
}

#[test]
fn parses_the_readme_function() {
    let text = "define factorial: num -> num {\n    @return = 1;\n    i = 2;\n\n    while <= i @0 {\n        @return = * @return i;\n        i = + i 1;\n    };\n}";
    let mut p = program();
    let mut s = stream(text);
    let f = parse_function(&mut s, &mut p, &None, true).ok().unwrap();
    assert_eq!(f.signature.name, "factorial");
    assert!(f.signature.module.is_none());
    assert!(f.signature.owner_type.is_none());
    let inputs = f.signature.input_types.unwrap();
    assert_eq!(inputs.len(), 1);
    assert!(matches!(inputs[0], (Type::Number, false)));
    assert!(matches!(f.signature.output_type, Some(Type::Number)));
    assert_eq!(f.instructions.len(), 3);
    assert!(matches!(f.instructions[2], Statement::While(_, ref b, _) if b.len() == 2));
    assert!(s.current().is_none());
    assert_eq!(p.warnings.len(), 0);
}

#[test]
fn parses_methods_and_references() {
    let mut p = program();
    let mut s = stream("define push for list[num]: ~list[num] num -> any { }");
    let f = parse_function(&mut s, &mut p, &Some("lists".to_string()), true).ok().unwrap();
    assert_eq!(f.signature.module, Some("lists".to_string()));
    assert!(matches!(f.signature.owner_type, Some(Type::List(_))));
    let inputs = f.signature.input_types.unwrap();
    assert_eq!(inputs.len(), 2);
    assert!(inputs[0].1);
    assert!(!inputs[1].1);
    assert_eq!(f.instructions.len(), 0);
}

#[test]
fn parses_structures() {
    let mut p = program();
    let mut s = stream("structure Point { x: num; y: num }");
    let d = parse_structure(&mut s, &mut p, &Some("geo".to_string()), true).ok().unwrap();
    assert_eq!(d.signature.name, "Point");
    assert_eq!(d.signature.module, Some("geo".to_string()));
    assert_eq!(d.fields.len(), 2);
    assert_eq!(d.fields[1].0, "y");
    assert!(s.current().is_none());
    // the last field has no semicolon
    assert_eq!(p.warnings.len(), 1);
    let wp = p.warnings[0].position.as_ref().unwrap();
    assert_eq!((wp.first_column, wp.last_column), (10, Some(31)));
    let e = parse_structure(&mut stream("structure P ( x: num }"), &mut p, &None, true).err().unwrap();
    assert_eq!(e.message.to_string(), "Expected '{{', got unexpected separator '('");
    let e = parse_structure(&mut stream("structure P { 3: num }"), &mut p, &None, true).err().unwrap();
    assert_eq!(e.message.to_string(), "Expected field name or '}}', got unexpected literal '3'");
}

#[test]
fn parses_builtin_imports() {
    let mut p = program();
    let imp = parse_builtin(&mut stream("builtin io;"), &mut p, true).ok().unwrap();
    assert_eq!(imp.module(), "io");
    assert!(imp.is_valid().is_ok());
    let imp = parse_builtin(&mut stream("builtin io:print;"), &mut p, true).ok().unwrap();
    assert!(imp.is_valid().is_ok());
    let e = parse_builtin(&mut stream("builtin web;"), &mut p, true).err().unwrap();
    assert_eq!(e.message.get_title(), "IMPORT ERROR");
    assert_eq!(e.message.to_string(), "Built-in module 'web' does not exists");
    assert_eq!((e.position_trace[0].first_column, e.position_trace[0].last_column), (0, Some(10)));
    let e = parse_builtin(&mut stream("builtin io:fly;"), &mut p, true).err().unwrap();
    assert_eq!(e.message.to_string(), "Built-in 'fly' does not exists in the module 'io'");
    assert_eq!(p.warnings.len(), 0);
}

#[test]
fn parses_static_expressions() {
    let mut p = program();
    let mut s = stream("static PI = 3; static tau = 6;");
    parse_static_expr(&mut s, &mut p, true).ok().unwrap();
    assert_eq!(p.warnings.len(), 0);
    parse_static_expr(&mut s, &mut p, true).ok().unwrap();
    assert_eq!(p.statics.len(), 2);
    assert_eq!(p.statics[1].0, "tau");
    assert_eq!(p.warnings.len(), 1);
    assert_eq!(p.warnings[0].text, "It is recommended to set in full uppercase the name of static expressions ('TAU')");
    let e = parse_static_expr(&mut stream("static PI = 4;"), &mut p, true).err().unwrap();
    assert_eq!(e.message.get_title(), "RUNTIME ERROR");
    assert_eq!(e.message.to_string(), "The static expression 'PI' is already defined");
}

#[test]
fn static_names_in_capitals() {
    let pos = Position { filename: "f.slo".to_string(), line: 0, first_column: 7, last_column: Some(9) };
    assert!(static_name_warning(&"PI".to_string(), "PI".to_string(), pos.duplicate()).is_none());
    let w = static_name_warning(&"pi".to_string(), "PI".to_string(), pos).unwrap();
    assert_eq!(w.text, "It is recommended to set in full uppercase the name of static expressions ('PI')");
}

#[test]
fn parses_file_imports() {
    let (name, pos) = parse_import(&mut stream("import \"lib/maths.slo\";")).ok().unwrap();
    assert_eq!(name, "lib/maths.slo");
    assert_eq!((pos.first_column, pos.last_column), (0, Some(21)));
    let e = parse_import(&mut stream("import 12;")).err().unwrap();
    assert_eq!(e.message.get_title(), "IMPORT ERROR");
    assert_eq!(e.message.to_string(), "Expected filename, got '12'");
    let e = parse_import(&mut stream("import x;")).err().unwrap();
    assert_eq!(e.message.to_string(), "Expected file name, got unexpected identifier 'x'");
}

#[test]
fn parses_whole_files() {
    let text = "builtin io;\nstatic N = 3;\nstructure P { x: num; }\ndefine f: num -> num { @return = @0; }\nimport \"other.slo\";\ndefine g: -> num { }";
    let mut p = program();
    let mut s = stream(text);
    let step = parse_file(&mut s, &mut p, true, &None).ok().unwrap();
    assert!(matches!(step, FileStep::Import(ref f, _) if f == "other.slo"));
    assert_eq!(p.imports.len(), 1);
    assert_eq!(p.statics.len(), 1);
    assert_eq!(p.structures.len(), 1);
    assert_eq!(p.functions.len(), 1);
    let pos = match step { FileStep::Import(_, pos) => pos, FileStep::Done => panic!() };
    check_semicolon(&mut s, &mut p, true, &pos).ok().unwrap();
    let step = parse_file(&mut s, &mut p, true, &None).ok().unwrap();
    assert!(matches!(step, FileStep::Done));
    assert_eq!(p.functions.len(), 2);
    assert_eq!(p.warnings.len(), 0);
}

#[test]
fn redefinitions_warn() {
    let mut p = program();
    let mut s = stream("define f: -> num { } define f: -> num { } structure S { } structure S { }");
    parse_file(&mut s, &mut p, false, &None).ok().unwrap();
    assert_eq!(p.functions.len(), 1);
    assert_eq!(p.structures.len(), 1);
    assert_eq!(p.warnings.len(), 2);
    assert_eq!(p.warnings[0].text, "The function 'f' has been overwritten");
    assert_eq!(p.warnings[1].text, "The structure 'S' has been overwritten");
    assert!(p.warnings[0].position.is_none());
}

#[test]
fn top_level_errors() {
    let mut p = program();
    let e = parse_file(&mut stream("while x { }"), &mut p, true, &None).err().unwrap();
    assert_eq!(
        e.message.to_string(),
        "Expected 'builtin', 'import', 'static', 'structure' or 'define', got unexpected keyword 'while'"
    );
    let e = parse_file(&mut stream("x = 1;"), &mut p, true, &None).err().unwrap();
    assert_eq!(e.message.to_string(), "Expected keyword, got unexpected identifier 'x'");
    let e = slothlang::builder::parse_file(&mut stream("x = 1;"), &mut p, true, &None).err().unwrap();
    assert_eq!(e.message.to_string(), "Expected keyword, got unexpected token 'x'");
}

#[test]
fn stream_helpers() {
    let mut p = program();
    let mut s = stream("io:f ;");
    let m = module_check(&mut s).ok().unwrap().unwrap();
    assert_eq!(m.0, "io");
    assert!(current_equal(&mut s, Token::Identifier("f".to_string())).ok().unwrap());
    assert!(expect_token(&mut s, Token::Keyword(Keyword::New)).is_err());
    let (_, fpos) = expect_token(&mut s, Token::Identifier("f".to_string())).ok().unwrap();
    check_semicolon(&mut s, &mut p, true, &fpos).ok().unwrap();
    assert!(s.current().is_none());
    assert!(check_semicolon(&mut s, &mut p, true, &fpos).is_err());
    let e = wrong_token(Some((Token::Separator(Separator::Comma), fpos)), "type");
    assert_eq!(e.message.to_string(), "Expected type, got unexpected separator ','");
    let e = expect_token(&mut stream("("), Token::Separator(Separator::CloseParenthesis)).err().unwrap();
    assert_eq!(e.message.to_string(), "Expected ')', got unexpected separator '('");
}

#[test]
fn programs_and_modules_from_paths() {
    let p = program_for("examples/main.slo", true).unwrap();
    assert_eq!(p.name, "main");
    assert!(p.import_default_builtins);
    assert_eq!(module_name_for("lib/maths.slo", false), Some(Some("maths".to_string())));
    assert_eq!(module_name_for("lib/maths.slo", true), Some(None));
    assert!(program_for("", true).is_none());
}

#[test]
fn parsed_imports_resolve() {
    let mut p = program();
    let mut s = stream("builtin clock:Duration; builtin io; builtin io:print;");
    parse_file(&mut s, &mut p, true, &None).ok().unwrap();
    assert_eq!(p.imports.len(), 3);
    let (f, st) = p.import_builtins().ok().unwrap();
    let names: Vec<String> = f.iter().map(|x| x.signature.name.clone()).collect();
    assert_eq!(names, vec!["print", "read", "since"]);
    assert_eq!(st.len(), 1);
}

#[test]
fn failed_parse_leaves_the_program_unchanged() {
    let mut p = program();
    let mut s = stream("define f: -> num { x = 1 }");
    parse_file(&mut s, &mut p, true, &None).ok().unwrap();
    let warnings = p.warnings.len();
    let functions = p.functions.len();
    assert!(warnings > 0);
    let e = parse_file(&mut stream("while"), &mut p, true, &None).err().unwrap();
    assert_eq!(
        e.message.to_string(),
        "Expected 'builtin', 'import', 'static', 'structure' or 'define', got unexpected keyword 'while'"
    );
    assert_eq!(e.position_trace.len(), 1);
    assert_eq!((e.position_trace[0].line, e.position_trace[0].first_column, e.position_trace[0].last_column), (0, 0, Some(4)));
    assert_eq!(p.warnings.len(), warnings);
    assert_eq!(p.functions.len(), functions);
    let e = slothlang::builder::parse_file(&mut stream("x"), &mut p, true, &None).err().unwrap();
    assert_eq!(e.message.to_string(), "Expected keyword, got unexpected token 'x'");
    assert_eq!(p.warnings.len(), warnings);
    assert_eq!(p.functions.len(), functions);
}

#[test]
fn errors_keep_the_cursor() {
    let mut s = stream("( x");
    assert!(expect_token(&mut s, Token::Separator(Separator::CloseParenthesis)).is_err());
    assert_eq!(s.current, 0);
    let mut s = stream("3 : x");
    assert!(module_check(&mut s).is_err());
    assert_eq!(s.current, 0);
    let mut p = program();
    let mut s = stream("");
    let pos = Position { filename: "test.slo".to_string(), line: 0, first_column: 0, last_column: Some(0) };
    assert!(check_semicolon(&mut s, &mut p, true, &pos).is_err());
    assert_eq!(s.current, 0);
}

#[test]
fn build_checks_imported_builtins() {
    let mut p = program();
    assert!(slothlang::parser::check_builtins(&p).is_ok());
    parse_file(&mut stream("builtin io:print;"), &mut p, true, &None).ok().unwrap();
    assert!(slothlang::parser::check_builtins(&p).is_ok());
    p.add_import(slothlang::builtins::BuiltInImport::new("io".to_string(), Some(vec!["fly".to_string()])));
    let e = slothlang::parser::check_builtins(&p).err().unwrap();
    assert_eq!(e.message.get_title(), "IMPORT ERROR");
    assert_eq!(e.message.to_string(), "Builtin 'fly' not found in module 'io'");
    assert_eq!(e.position_trace.len(), 0);
}
