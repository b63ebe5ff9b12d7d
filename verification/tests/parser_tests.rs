use watt::lexer::address::Address;
use watt::lexer::lexer::{Lexer, Token, TokenKind};
use watt::parser::ast::Node;
use watt::parser::parser::Parser;

fn tokens(src: &str) -> Vec<Token> {
    let code: Vec<char> = src.chars().collect();
    Lexer::new(&code, "main.wt".to_string()).lex().unwrap()
}

fn parse(src: &str) -> Result<Node, watt::errors::errors::Error> {
    Parser::new(tokens(src), "main.wt".to_string(), "main".to_string()).parse()
}

fn body(node: Node) -> Vec<Node> {
    match node {
        Node::Block { body } => body,
        other => panic!("not a block: {:?}", other),
    }
}

#[test]
fn parses_an_empty_program() {
    assert_eq!(body(parse("").unwrap()).len(), 0);
}

#[test]
fn parses_a_definition() {
    let toks = tokens("a := 1");
    let stmts = body(parse("a := 1").unwrap());
    assert_eq!(
        stmts,
        vec![Node::Define {
            previous: None,
            name: toks[0].clone(),
            value: Box::new(Node::Number { value: toks[2].clone() }),
        }]
    );
}

#[test]
fn parses_a_compound_assignment() {
    let toks = tokens("a += 1");
    let stmts = body(parse("a += 1").unwrap());
    let op = Token::new(TokenKind::Op, "+".to_string(), toks[1].address.clone());
    assert_eq!(
        stmts,
        vec![Node::Assign {
            previous: None,
            name: toks[0].clone(),
            value: Box::new(Node::Bin {
                left: Box::new(Node::Get { previous: None, name: toks[0].clone(), should_push: true }),
                right: Box::new(Node::Number { value: toks[2].clone() }),
                op,
            }),
        }]
    );
}

#[test]
fn parses_a_function_with_its_full_name() {
    let src = "fn f(x) { return x }";
    let toks = tokens(src);
    let stmts = body(parse(src).unwrap());
    let full_name = Token::new(TokenKind::Text, "main:f".to_string(), toks[1].address.clone());
    assert_eq!(
        stmts,
        vec![Node::FnDeclaration {
            name: toks[1].clone(),
            full_name: Some(full_name),
            params: vec![toks[3].clone()],
            body: Box::new(Node::Block {
                body: vec![Node::Ret {
                    location: toks[6].clone(),
                    value: Box::new(Node::Get { previous: None, name: toks[7].clone(), should_push: true }),
                }],
            }),
            make_closure: true,
        }]
    );
}

#[test]
fn parses_binary_operations_left_to_right() {
    let src = "a := 1 - 2 - 3";
    let toks = tokens(src);
    let stmts = body(parse(src).unwrap());
    let inner = Node::Bin {
        left: Box::new(Node::Number { value: toks[2].clone() }),
        right: Box::new(Node::Number { value: toks[4].clone() }),
        op: toks[3].clone(),
    };
    let outer = Node::Bin { left: Box::new(inner), right: Box::new(Node::Number { value: toks[6].clone() }), op: toks[5].clone() };
    assert_eq!(stmts, vec![Node::Define { previous: None, name: toks[0].clone(), value: Box::new(outer) }]);
}

#[test]
fn parses_else_as_a_true_condition() {
    let src = "if a { } else { }";
    let toks = tokens(src);
    let stmts = body(parse(src).unwrap());
    let else_branch = Node::If {
        location: toks[4].clone(),
        logical: Box::new(Node::Bool { value: Token::new(TokenKind::Bool, "true".to_string(), toks[4].address.clone()) }),
        body: Box::new(Node::Block { body: vec![] }),
        elseif: None,
    };
    assert_eq!(
        stmts,
        vec![Node::If {
            location: toks[0].clone(),
            logical: Box::new(Node::Get { previous: None, name: toks[1].clone(), should_push: true }),
            body: Box::new(Node::Block { body: vec![] }),
            elseif: Some(Box::new(else_branch)),
        }]
    );
}

#[test]
fn reports_the_end_of_input() {
    let e = parse("a :=").unwrap_err();
    assert_eq!(e.text, "unexpected eof");
    assert_eq!(e.hint, "check your code.");
    assert_eq!(e.addr, Address::new(0, 0, "main.wt".to_string()));
}

#[test]
fn reports_an_unexpected_statement() {
    let e = parse("1").unwrap_err();
    assert_eq!(e.text, "unexpected stmt token: Number:1");
}

#[test]
fn reports_an_invalid_token_quoted() {
    let e = parse("a := )").unwrap_err();
    assert_eq!(e.text, "invalid token. Rparen:\")\"");
    assert_eq!(e.hint, "check your code.");
}

#[test]
fn reports_an_unexpected_token() {
    let e = parse("fn 1").unwrap_err();
    assert_eq!(e.text, "unexpected token: 'Number:1', expected: 'Id'");
}

#[test]
fn parses_error_propagation() {
    let src = "a?";
    let toks = tokens(src);
    let stmts = body(parse(src).unwrap());
    assert_eq!(
        stmts,
        vec![Node::ErrorPropagation {
            location: toks[1].clone(),
            value: Box::new(Node::Get { previous: None, name: toks[0].clone(), should_push: false }),
            should_push: false,
        }]
    );
}

#[test]
fn parses_an_import() {
    let src = "import 'std.io'";
    let stmts = body(parse(src).unwrap());
    match &stmts[0] {
        Node::Import { imports, .. } => {
            assert_eq!(imports.len(), 1);
            assert_eq!(imports[0].file, "std.io");
            assert_eq!(imports[0].full_name, None);
        },
        other => panic!("not an import: {:?}", other),
    }
}

#[test]
fn setting_should_push_twice_keeps_the_second_value() {
    let name = tokens("x")[0].clone();
    let node = Node::Get { previous: None, name: name.clone(), should_push: true };
    let once = watt::parser::ast::set_should_push(node, false);
    let twice = watt::parser::ast::set_should_push(once, true);
    assert_eq!(twice, Node::Get { previous: None, name: name.clone(), should_push: true });
    let number = Node::Number { value: name.clone() };
    assert_eq!(watt::parser::ast::set_should_push(number, false), Node::Number { value: name });
}

#[test]
fn parses_an_import_with_a_full_name() {
    let stmts = body(parse("import 'std.io' with 'io'").unwrap());
    match &stmts[0] {
        Node::Import { imports, .. } => {
            assert_eq!(imports.len(), 1);
            assert_eq!(imports[0].file, "std.io");
            assert_eq!(imports[0].full_name, Some("io".to_string()));
        },
        other => panic!("not an import: {:?}", other),
    }
    assert_eq!(stmts.len(), 1);
}
