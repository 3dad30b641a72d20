use slothlang::lexer::tokeniser::trim_chars;
use slothlang::lexer::get_token_stream;
use slothlang::lexer::keyword::Keyword;
use slothlang::lexer::operator::Operator;
use slothlang::lexer::separator::Separator;
use slothlang::lexer::token::Token;
use slothlang::lexer::tokenstream::TokenStream;
use slothlang::position::Position;

fn pos(line: usize, first: usize, last: usize) -> Position {
    Position { filename: "test.slo".to_string(), line, first_column: first, last_column: Some(last) }
}

fn same_pos(a: &Position, b: &Position) -> bool {
    a.filename == b.filename && a.line == b.line && a.first_column == b.first_column && a.last_column == b.last_column
}

fn tokens_of(text: &str) -> Vec<(Token, Position)> {
    get_token_stream("test.slo", text).ok().unwrap().tokens
}

#[test]
fn keywords_round_trip() {
    let all = [
        Keyword::Builtin, Keyword::Import, Keyword::Static, Keyword::Structure, Keyword::Define, Keyword::For,
        Keyword::LeftArrow, Keyword::New, Keyword::Equal, Keyword::If, Keyword::While,
    ];
    for k in all {
        let text = k.to_string();
        assert!(Keyword::from_str(&text).ok() == Some(k));
    }
    assert_eq!(Keyword::Define.to_string(), "define");
    assert_eq!(Keyword::LeftArrow.to_string(), "->");
    assert_eq!(Keyword::from_str("else").err().unwrap(), "Unimplemented keyword 'else'");
}

#[test]
fn operators_round_trip() {
    let all = [
        Operator::Add, Operator::Sub, Operator::Mul, Operator::Div, Operator::Mod, Operator::Eq, Operator::Gr,
        Operator::Lw, Operator::Ge, Operator::Le, Operator::And, Operator::Or, Operator::Inv, Operator::Len,
    ];
    for o in all {
        let text = o.to_string();
        assert!(Operator::from_str(&text).ok() == Some(o));
    }
    assert_eq!(Operator::Ge.to_string(), ">=");
    assert_eq!(Operator::Ge.get_name(), "ge");
    assert_eq!(Operator::Or.to_string(), "?");
    assert!(Operator::from_str("=>").is_err());
}

#[test]
fn separators_round_trip() {
    let all = [
        Separator::OpenParenthesis, Separator::CloseParenthesis, Separator::OpenBracket, Separator::CloseBracket,
        Separator::OpenSquareBracket, Separator::CloseSquareBracket, Separator::SemiColon, Separator::Colon,
        Separator::Comma, Separator::Line, Separator::Period, Separator::Tilde,
    ];
    for s in all {
        let text = s.to_string();
        assert!(Separator::from_str(&text).ok() == Some(s));
    }
    assert_eq!(Separator::Tilde.to_string(), "~");
    assert!(Separator::from_str("((").is_err());
}

#[test]
fn token_kinds_from_text() {
    assert!(matches!(Token::from_str("define"), Ok(Token::Keyword(Keyword::Define))));
    assert!(matches!(Token::from_str(";"), Ok(Token::Separator(Separator::SemiColon))));
    assert!(matches!(Token::from_str("<="), Ok(Token::Operator(Operator::Le))));
    assert!(matches!(Token::from_str("12.5"), Ok(Token::Literal(ref s)) if s == "12.5"));
    assert!(matches!(Token::from_str("\"hi\""), Ok(Token::Literal(ref s)) if s == "\"hi\""));
    assert!(matches!(Token::from_str("true"), Ok(Token::Literal(_))));
    assert!(matches!(Token::from_str("@main"), Ok(Token::Identifier(ref s)) if s == "@main"));
    assert!(matches!(Token::from_str("@0"), Ok(Token::Identifier(_))));
    assert!(matches!(Token::from_str("my_var2"), Ok(Token::Identifier(_))));
    assert_eq!(
        Token::from_str("2x").err().unwrap(),
        "Invalid token '2x'. Note: identifiers can only be made of letters, numbers (not at the start) and '_'"
    );
    assert!(Token::from_str("@a1").is_err());
}

#[test]
fn token_texts() {
    let t = Token::from_str("while").ok().unwrap();
    assert_eq!(t.original_string(), "while");
    assert_eq!(t.to_string_formatted(), "Keyword(While)");
    let i = Token::Identifier("x\"y".to_string());
    assert_eq!(i.to_string_formatted(), "Identifier(\"x\\\"y\")");
    assert_eq!(Token::Separator(Separator::OpenSquareBracket).to_string_formatted(), "Separator(OpenSquareBracket)");
    assert_eq!(Token::Operator(Operator::Inv).original_string(), "!");
}

#[test]
fn lexes_a_definition_line() {
    let toks = tokens_of("define factorial: num -> num {");
    let expected = [
        (Token::Keyword(Keyword::Define), pos(0, 0, 5)),
        (Token::Identifier("factorial".to_string()), pos(0, 7, 15)),
        (Token::Separator(Separator::Colon), pos(0, 16, 16)),
        (Token::Identifier("num".to_string()), pos(0, 18, 20)),
        (Token::Keyword(Keyword::LeftArrow), pos(0, 22, 23)),
        (Token::Identifier("num".to_string()), pos(0, 25, 27)),
        (Token::Separator(Separator::OpenBracket), pos(0, 29, 29)),
    ];
    assert_eq!(toks.len(), expected.len());
    for (k, (t, p)) in expected.iter().enumerate() {
        assert!(toks[k].0.same(t), "token {}", k);
        assert!(same_pos(&toks[k].1, p), "position {}", k);
    }
}

#[test]
fn lexes_operators_stuck_to_operands() {
    let toks = tokens_of("!true;");
    assert_eq!(toks.len(), 3);
    assert!(toks[0].0.same(&Token::Operator(Operator::Inv)));
    assert!(same_pos(&toks[0].1, &pos(0, 0, 0)));
    assert!(toks[1].0.same(&Token::Literal("true".to_string())));
    assert!(same_pos(&toks[1].1, &pos(0, 1, 4)));
    // at the end of a line, the rest of the buffer is one token
    assert!(get_token_stream("test.slo", "!true").is_err());
}

#[test]
fn lexes_strings_numbers_and_comments() {
    let toks = tokens_of("print(\"a b\" 3.14); # comment\nx = 2;");
    let kinds: Vec<String> = toks.iter().map(|(t, _)| t.to_string_formatted()).collect();
    assert_eq!(
        kinds,
        vec![
            "Identifier(\"print\")", "Separator(OpenParenthesis)", "Literal(\"\\\"a b\\\"\")", "Literal(\"3.14\")",
            "Separator(CloseParenthesis)", "Separator(SemiColon)", "Identifier(\"x\")", "Keyword(Equal)",
            "Literal(\"2\")", "Separator(SemiColon)",
        ]
    );
    assert!(same_pos(&toks[2].1, &pos(0, 6, 10)));
    assert!(same_pos(&toks[6].1, &pos(1, 0, 0)));
}

#[test]
fn lexer_reports_invalid_tokens() {
    let e = get_token_stream("test.slo", "x = 3y;").err().unwrap();
    assert_eq!(e.message.to_string(), "Invalid token '3y'. Note: identifiers can only be made of letters, numbers (not at the start) and '_'");
    assert_eq!(e.message.get_title(), "SYNTAX ERROR");
    assert_eq!(e.position_trace.len(), 1);
    assert!(same_pos(&e.position_trace[0], &pos(0, 4, 5)));
}

#[test]
fn token_stream_moves() {
    let mut s: TokenStream = get_token_stream("test.slo", "a b c d").ok().unwrap();
    assert!(matches!(s.current(), Some((Token::Identifier(ref n), _)) if n == "a"));
    assert!(matches!(s.next(), Some((Token::Identifier(ref n), _)) if n == "b"));
    assert!(matches!(s.peek(1), Some((Token::Identifier(ref n), _)) if n == "c"));
    assert!(matches!(s.peek(-1), Some((Token::Identifier(ref n), _)) if n == "a"));
    assert!(matches!(s.skip(2), Some((Token::Identifier(ref n), _)) if n == "d"));
    assert!(s.next().is_none());
    assert!(s.nth(0).is_some());
    assert!(s.nth(4).is_none());
}

#[test]
fn every_token_is_in_its_file() {
    let toks = get_token_stream("dir/prog.slo", "define f: -> num {\n @return = 1;\n}").ok().unwrap().tokens;
    assert!(toks.iter().all(|(_, p)| p.filename == "dir/prog.slo"));
}

#[test]
fn skipping_is_moving_one_token_at_a_time() {
    let mut a: TokenStream = get_token_stream("test.slo", "a b c d e").ok().unwrap();
    let mut b: TokenStream = get_token_stream("test.slo", "a b c d e").ok().unwrap();
    a.skip(1);
    let ta = a.skip(2);
    b.next();
    b.next();
    let tb = b.next();
    assert!(ta.unwrap().0.same(&tb.unwrap().0));
    assert!(a.current().unwrap().0.same(&b.current().unwrap().0));
}

#[test]
fn tokens_give_back_their_text() {
    for text in ["static", "->", "~", "<=", "#", "\"a b\"", "1.5", "false", "@self", "_x1"] {
        let t = Token::from_str(text).ok().unwrap();
        assert_eq!(t.original_string(), text);
    }
}

#[test]
fn comments_do_not_start_inside_strings() {
    let toks = tokens_of("x = \"a#b\"; # c");
    let kinds: Vec<String> = toks.iter().map(|(t, _)| t.to_string_formatted()).collect();
    assert_eq!(kinds, vec!["Identifier(\"x\")", "Keyword(Equal)", "Literal(\"\\\"a#b\\\"\")", "Separator(SemiColon)"]);
}

#[test]
fn periods_in_numbers_and_fields() {
    let kinds: Vec<String> = tokens_of("a.b 1.x 2.5;").iter().map(|(t, _)| t.to_string_formatted()).collect();
    assert_eq!(
        kinds,
        vec![
            "Identifier(\"a\")", "Separator(Period)", "Identifier(\"b\")", "Literal(\"1\")", "Separator(Period)",
            "Identifier(\"x\")", "Literal(\"2.5\")", "Separator(SemiColon)",
        ]
    );
}

#[test]
fn operator_positions_end_on_their_last_character() {
    let toks = tokens_of("+ 1 2");
    assert!(toks[0].0.same(&Token::Operator(Operator::Add)));
    assert!(same_pos(&toks[0].1, &pos(0, 0, 0)));
    assert!(same_pos(&toks[1].1, &pos(0, 2, 2)));
    assert!(same_pos(&toks[2].1, &pos(0, 4, 4)));
    let toks = tokens_of("<=a;");
    assert!(same_pos(&toks[0].1, &pos(0, 0, 1)));
    assert!(same_pos(&toks[1].1, &pos(0, 2, 2)));
}

#[test]
fn trimming_follows_unicode_white_space() {
    let samples = ["\u{3000}a b\t", "\u{200B}a", " \u{85}x\u{2029}", "\u{a0}\u{1680}\u{202f}", "\u{180e}y", ""];
    for s in samples.iter() {
        let chars: Vec<char> = s.chars().collect();
        let trimmed: String = trim_chars(&chars).into_iter().collect();
        assert_eq!(trimmed, s.trim());
    }
}

#[test]
fn operator_names_are_distinct_lowercase_words() {
    let all = [
        Operator::Add, Operator::Sub, Operator::Mul, Operator::Div, Operator::Mod, Operator::Eq, Operator::Gr,
        Operator::Lw, Operator::Ge, Operator::Le, Operator::And, Operator::Or, Operator::Inv, Operator::Len,
    ];
    for a in all.iter() {
        let n = a.get_name();
        assert!(!n.is_empty() && n.chars().all(|c| c.is_ascii_lowercase()));
        for b in all.iter() {
            assert_eq!(n == b.get_name(), a == b);
        }
    }
    assert_eq!(Operator::Add.get_name(), "add");
    assert_eq!(Operator::Le.get_name(), "le");
    assert_eq!(Operator::Inv.get_name(), "inv");
}

#[test]
fn skipping_is_stepping() {
    let mut a = get_token_stream("test.slo", "+ 1 2 3 4").ok().unwrap();
    let mut b = get_token_stream("test.slo", "+ 1 2 3 4").ok().unwrap();
    let r = a.skip(3);
    let mut last = None;
    for _ in 0..3 {
        last = b.next();
    }
    assert_eq!(a.current, b.current);
    assert_eq!(a.current, 3);
    assert!(matches!(r.unwrap().0, Token::Literal(ref x) if x == "3"));
    assert!(matches!(last.unwrap().0, Token::Literal(ref x) if x == "3"));
    a.skip(1);
    a.skip(1);
    b.skip(2);
    assert_eq!(a.current, b.current);
}
