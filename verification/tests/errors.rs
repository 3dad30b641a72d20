use slothlang::errors::{Error, ErrMsg, Warning};
use slothlang::position::Position;

fn at(file: &str, line: usize, first: usize, last: Option<usize>) -> Position {
    Position { filename: file.to_string(), line, first_column: first, last_column: last }
}

#[test]
fn titles_and_messages() {
    assert_eq!(ErrMsg::FileError("x".to_string()).get_title(), "FILE ERRO");
    assert_eq!(ErrMsg::NoEntryPoint("x".to_string()).get_title(), "NO ENTRY POINT");
    assert_eq!(ErrMsg::TypeError("bad".to_string()).to_string(), "bad");
    assert_eq!(
        ErrMsg::RustError("oops".to_string()).to_string(),
        "oops (this error is from Rust, it is unlikely your fault)"
    );
}

#[test]
fn errors_keep_real_positions_only() {
    let e = Error::new(ErrMsg::SyntaxError("s".to_string()), Some(at("", 1, 1, None)));
    assert_eq!(e.position_trace.len(), 0);
    let e = Error::new(ErrMsg::SyntaxError("s".to_string()), None);
    assert_eq!(e.position_trace.len(), 0);
    let e = Error::new(ErrMsg::SyntaxError("s".to_string()), Some(at("a.slo", 1, 1, None)));
    assert_eq!(e.position_trace.len(), 1);
}

#[test]
fn backtraces_grow_at_the_front() {
    let e = Error::new(ErrMsg::RuntimeError("r".to_string()), Some(at("a.slo", 4, 2, Some(3))));
    // a position on the same line of the same file is not added
    let e = e.with(&at("a.slo", 4, 0, Some(9)));
    assert_eq!(e.position_trace.len(), 1);
    assert_eq!(e.position_trace[0].first_column, 2);
    let e = e.with(&at("a.slo", 1, 0, Some(9)));
    assert_eq!(e.position_trace.len(), 2);
    assert_eq!(e.position_trace[0].line, 1);
    // adding the same position twice adds it once
    let e = e.with(&at("b.slo", 1, 0, Some(9))).with(&at("b.slo", 1, 0, Some(9)));
    assert_eq!(e.position_trace.len(), 3);
}

#[test]
fn positions() {
    let p = at("f.slo", 0, 2, Some(4));
    assert_eq!(p.to_string(), "(f.slo, line 1, 3-5)");
    assert_eq!(at("f.slo", 9, 0, None).to_string(), "(f.slo, line 10, 1-?)");
    let q = p.until(at("f.slo", 0, 7, Some(9)));
    assert_eq!((q.first_column, q.last_column), (2, Some(9)));
    let r = p.until(at("f.slo", 0, 7, None));
    assert_eq!(r.last_column, None);
    // linking is associative
    let a = at("f.slo", 0, 1, Some(1));
    let b = at("f.slo", 0, 3, Some(4));
    let c = at("f.slo", 0, 6, Some(8));
    let left = a.until(b.duplicate()).until(c.duplicate());
    let right = a.until(b.until(c));
    assert_eq!((left.first_column, left.last_column), (right.first_column, right.last_column));
}

#[test]
fn abort_text_with_backtrace() {
    let e = Error::new(ErrMsg::SyntaxError("Expected ';'".to_string()), Some(at("m.slo", 2, 4, Some(6))));
    let text = e.abort_text(&vec!["    x = 1".to_string()]);
    let expected = "\x1b[31m     ■ \x1b[91mSYNTAX ERROR (backtrace)\x1b[0m\n".to_string()
        + "\x1b[31m     |\x1b[0m\n"
        + "\x1b[31m   3 |\x1b[0m     x = 1\n"
        + "\x1b[31m     | \x1b[91m    ^^^\x1b[90m         (m.slo:3)\x1b[0m\n"
        + "\x1b[31m     |\x1b[0m\n"
        + "\x1b[31m     =>\x1b[91m Expected ';'\x1b[0m\n";
    assert_eq!(text, expected);
}

#[test]
fn abort_text_without_position() {
    let e = Error::new(ErrMsg::ImportError("no".to_string()), None);
    assert_eq!(e.abort_text(&vec![]), "\x1b[91m no\x1b[0m\n");
}

#[test]
fn abort_text_until_line_end() {
    // an unknown last column marks up to two past the end of the line
    let e = Error::new(ErrMsg::SyntaxError("s".to_string()), Some(at("m.slo", 0, 1, None)));
    let text = e.abort_text(&vec!["abc".to_string()]);
    assert!(text.contains("\x1b[91m ^^^^\x1b[90m"));
}

#[test]
fn warn_texts() {
    let w = Warning::new("careful".to_string(), None);
    assert_eq!(w.warn_text(&String::new()), "\x1b[93mWarning: careful\x1b[0m\n");
    let w = Warning::new("semi".to_string(), Some(at("m.slo", 0, 0, Some(2))));
    let expected = "\x1b[93mWarning: semi\x1b[0m\n".to_string()
        + "\x1b[33m     |\x1b[0m\n"
        + "\x1b[33m   1 | \x1b[0m x = 1\n"
        + "\x1b[33m     | \x1b[93m ^^^\x1b[90m         (m.slo:1)\x1b[0m\n"
        + "\x1b[0m\n\n";
    assert_eq!(w.warn_text(&"x = 1".to_string()), expected);
}
