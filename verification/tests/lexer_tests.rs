use watt::lexer::lexer::{LexFailure, Lexer, Token, TokenKind};

fn chars(s: &str) -> Vec<char> {
    s.chars().collect()
}

fn lex(src: &str) -> Result<Vec<Token>, watt::errors::errors::Error> {
    let code = chars(src);
    Lexer::new(&code, "main.wt".to_string()).lex()
}

fn kinds(tokens: &[Token]) -> Vec<TokenKind> {
    tokens.iter().map(|t| t.tk_type).collect()
}

fn values(tokens: &[Token]) -> Vec<String> {
    tokens.iter().map(|t| t.value.clone()).collect()
}

#[test]
fn lexes_a_definition() {
    let tokens = lex("a := 1").unwrap();
    assert_eq!(kinds(&tokens), vec![TokenKind::Id, TokenKind::Walrus, TokenKind::Number]);
    assert_eq!(values(&tokens), vec!["a", ":=", "1"]);
    assert_eq!(tokens[0].address.line, 1);
    assert_eq!(tokens[0].address.file, Some("main.wt".to_string()));
}

#[test]
fn lexes_keywords_and_identifiers() {
    let tokens = lex("fn if while iff impls true null x").unwrap();
    assert_eq!(
        kinds(&tokens),
        vec![
            TokenKind::Fn,
            TokenKind::If,
            TokenKind::While,
            TokenKind::Id,
            TokenKind::Impls,
            TokenKind::Bool,
            TokenKind::Null,
            TokenKind::Id
        ]
    );
    assert_eq!(values(&tokens)[3], "iff");
}

#[test]
fn lexes_a_string() {
    let tokens = lex("'hi there'").unwrap();
    assert_eq!(kinds(&tokens), vec![TokenKind::Text]);
    assert_eq!(values(&tokens), vec!["hi there"]);
}

#[test]
fn reports_an_unclosed_string() {
    let e = lex("'hi").unwrap_err();
    assert_eq!(e.text, "unclosed string quotes.");
    assert_eq!(e.hint, "did you forget ' symbol?");
}

#[test]
fn reports_an_unexpected_char() {
    let e = lex("a @").unwrap_err();
    assert_eq!(e.text, "unexpected char: @");
    assert_eq!(e.hint, "delete char: @");
}

#[test]
fn reports_a_number_with_two_dots() {
    let e = lex("1.2.3").unwrap_err();
    assert_eq!(e.text, "couldn't parse number with two dots");
    assert_eq!(e.hint, "check your code.");
}

#[test]
fn lexes_numbers_in_other_bases() {
    let tokens = lex("0x1F 0o17 0b101 2.5").unwrap();
    assert_eq!(kinds(&tokens), vec![TokenKind::Number; 4]);
    assert_eq!(values(&tokens), vec!["0x1F", "0o17", "0b101", "2.5"]);
}

#[test]
fn lexes_a_range() {
    let tokens = lex("1..2").unwrap();
    assert_eq!(kinds(&tokens), vec![TokenKind::Number, TokenKind::Range, TokenKind::Number]);
    assert_eq!(values(&tokens), vec!["1", "..", "2"]);
}

#[test]
fn lexes_operators() {
    let tokens = lex("+= -> == != <= >= / % ? ! < >").unwrap();
    assert_eq!(
        kinds(&tokens),
        vec![
            TokenKind::AssignAdd,
            TokenKind::Arrow,
            TokenKind::Eq,
            TokenKind::NotEq,
            TokenKind::LessEq,
            TokenKind::GreaterEq,
            TokenKind::Op,
            TokenKind::Op,
            TokenKind::Question,
            TokenKind::Bang,
            TokenKind::Less,
            TokenKind::Greater
        ]
    );
}

#[test]
fn skips_comments_and_counts_lines() {
    let tokens = lex("// note\nx /* a\nb */ y").unwrap();
    assert_eq!(values(&tokens), vec!["x", "y"]);
    assert_eq!(tokens[0].address.line, 2);
    assert_eq!(tokens[1].address.line, 3);
}

#[test]
fn stops_on_a_double_colon_after_an_identifier() {
    let code = chars("a::b");
    let r = Lexer::new(&code, "main.wt".to_string()).try_lex();
    assert!(matches!(r, Err(LexFailure::Endless)));
}

#[test]
fn lexes_an_empty_text() {
    assert!(lex("").unwrap().is_empty());
}

#[test]
fn only_a_leading_zero_starts_a_radix_literal() {
    let tokens = lex("5xA").unwrap();
    assert_eq!(kinds(&tokens), vec![TokenKind::Number, TokenKind::Id]);
    assert_eq!(values(&tokens), vec!["5", "xA"]);
}
