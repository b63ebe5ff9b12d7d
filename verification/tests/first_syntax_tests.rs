use watt::ast::{set_should_push, Node};
use watt::errors::{Error, ErrorType};
use watt::import::Import;
use watt::lexer::address::Address;
use watt::lexer::{Token, TokenType};
use watt::visitor::visit_node;

fn token(kind: TokenType, text: &str) -> Token {
    Token::new(kind, text.to_string(), Address { line: 1, column: 2, file: None })
}

#[test]
fn sets_should_push_on_reads() {
    let node = Node::Get { previous: None, name: token(TokenType::Id, "x"), should_push: true };
    let r = set_should_push(node, false, Address::unknown());
    assert_eq!(r.ok(), Some(Node::Get { previous: None, name: token(TokenType::Id, "x"), should_push: false }));
    let node = Node::Instance { name: token(TokenType::Id, "T"), constructor: vec![], should_push: false };
    let r = set_should_push(node, true, Address::unknown());
    assert_eq!(r.ok(), Some(Node::Instance { name: token(TokenType::Id, "T"), constructor: vec![], should_push: true }));
}

#[test]
fn refuses_should_push_on_other_nodes() {
    let node = Node::Number { value: token(TokenType::Number, "1") };
    let e = set_should_push(node, true, Address::new(7, 1, "f.wt".to_string())).err().unwrap();
    assert_eq!(
        e.get_text(),
        "couldn't apply should_push changes to: Number { value: Token { tk_type: Number, value: \"1\", address: Address { line: 1, column: 2, file: None } } }"
    );
    assert_eq!(e.get_hint(), "check your code.");
}

#[test]
fn builds_first_syntax_items() {
    let _e = Error::new(ErrorType::Semantic, Address::unknown(), "t".to_string(), "h".to_string());
    let i = Import::new("io".to_string(), None);
    assert_eq!(i, Import::new("io".to_string(), None));
    let t = token(TokenType::Pipe, "|>");
    assert_eq!(t, token(TokenType::Pipe, "|>"));
}

#[test]
fn visiting_has_no_effect() {
    visit_node(Node::Null { location: token(TokenType::Null, "null") });
    visit_node(Node::Block { body: vec![Box::new(Node::Break { location: token(TokenType::Break, "break") })] });
}

fn first_lex(src: &str) -> Result<Vec<Token>, Error> {
    watt::lexer::Lexer::new(src.to_string(), "f.wt".to_string()).lex()
}

fn at_line(kind: TokenType, text: &str, line: u64) -> Token {
    Token::new(kind, text.to_string(), Address::new(line, 0, "f.wt".to_string()))
}

#[test]
fn first_syntax_lexes_words_and_operators() {
    let tokens = first_lex("fun x := 1").ok().unwrap();
    assert_eq!(
        tokens,
        vec![
            at_line(TokenType::Fun, "fun", 1),
            at_line(TokenType::Id, "x", 1),
            at_line(TokenType::Walrus, ":=", 1),
            at_line(TokenType::Number, "1", 1),
        ]
    );
}

#[test]
fn first_syntax_lexes_strings_as_text() {
    assert_eq!(first_lex("'ab'").ok().unwrap(), vec![at_line(TokenType::Text, "ab", 1)]);
}

#[test]
fn first_syntax_lexes_assignment_and_equality() {
    assert_eq!(first_lex("=").ok().unwrap(), vec![at_line(TokenType::Assign, "=", 1)]);
    assert_eq!(first_lex("==").ok().unwrap(), vec![at_line(TokenType::Eq, "==", 1)]);
    assert_eq!(
        first_lex("a >= b").ok().unwrap(),
        vec![at_line(TokenType::Id, "a", 1), at_line(TokenType::GreaterEq, ">=", 1), at_line(TokenType::Id, "b", 1)]
    );
}

#[test]
fn first_syntax_lexes_numbers_with_one_dot() {
    assert_eq!(first_lex("1.5").ok().unwrap(), vec![at_line(TokenType::Number, "1.5", 1)]);
    let e = first_lex("1.2.3").err().unwrap();
    assert_eq!(e.get_text(), "couldn't parse number with two dots");
}

#[test]
fn first_syntax_skips_comments() {
    assert_eq!(first_lex("x // c\ny").ok().unwrap(), vec![at_line(TokenType::Id, "x", 1), at_line(TokenType::Id, "y", 2)]);
    assert_eq!(first_lex("/* a\n */ z").ok().unwrap(), vec![at_line(TokenType::Id, "z", 2)]);
}

#[test]
fn first_syntax_counts_lines() {
    let tokens = first_lex("a\nb").ok().unwrap();
    assert_eq!(tokens, vec![at_line(TokenType::Id, "a", 1), at_line(TokenType::Id, "b", 2)]);
    let tokens = first_lex("\n\nto").ok().unwrap();
    assert_eq!(tokens, vec![at_line(TokenType::To, "to", 3)]);
}

#[test]
fn first_syntax_reports_unexpected_chars() {
    let e = first_lex("@").err().unwrap();
    assert_eq!(e.get_text(), "unexpected char: @");
    assert_eq!(e.get_hint(), "delete char: @");
    let e = first_lex("a | b").err().unwrap();
    assert_eq!(e.get_text(), "expected > after | for pipe.");
}

#[test]
fn first_syntax_never_ends_on_a_double_colon_after_a_word() {
    let mut lexer = watt::lexer::Lexer::new("a::b".to_string(), "f.wt".to_string());
    assert!(matches!(lexer.try_lex(), Err(watt::lexer::FirstLexFailure::Endless)));
}

#[test]
fn first_syntax_lexes_documented_keywords() {
    let tokens = first_lex("return null").ok().unwrap();
    assert_eq!(tokens, vec![at_line(TokenType::Ret, "return", 1), at_line(TokenType::Null, "null", 1)]);
}
