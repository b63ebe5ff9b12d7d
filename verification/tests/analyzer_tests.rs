use watt::executor::executor::analyze;
use watt::lexer::lexer::Lexer;
use watt::parser::ast::Node;
use watt::parser::parser::Parser;
use watt::semantic::analyzer::Analyzer;

fn parse(src: &str) -> Node {
    let code: Vec<char> = src.chars().collect();
    let tokens = Lexer::new(&code, "main.wt".to_string()).lex().unwrap();
    Parser::new(tokens, "main.wt".to_string(), "main".to_string()).parse().unwrap()
}

fn check(src: &str) -> Result<(), (String, String)> {
    let node = parse(src);
    let mut analyzer = Analyzer::new();
    match analyzer.analyze(&node) {
        Ok(n) => {
            assert_eq!(n, &node);
            Ok(())
        },
        Err(e) => Err((e.text.to_string(), e.hint.to_string())),
    }
}

#[test]
fn rejects_break_outside_loops() {
    assert_eq!(
        check("break"),
        Err(("couldn't use break without loop.".to_string(), "remove this keyword".to_string()))
    );
    assert_eq!(
        check("if a { break }"),
        Err(("couldn't use break without loop.".to_string(), "remove this keyword".to_string()))
    );
}

#[test]
fn rejects_continue_outside_loops() {
    assert_eq!(
        check("continue"),
        Err(("couldn't use continue without loop.".to_string(), "remove this keyword".to_string()))
    );
}

#[test]
fn accepts_jumps_inside_loops() {
    assert_eq!(check("while a { break }"), Ok(()));
    assert_eq!(check("while a { if b { continue } }"), Ok(()));
    assert_eq!(check("while a { fn f() { continue } }"), Ok(()));
}

#[test]
fn rejects_return_outside_functions() {
    assert_eq!(
        check("return 1"),
        Err(("couldn't use return without loop.".to_string(), "remove this keyword".to_string()))
    );
    assert_eq!(
        check("while a { return 1 }"),
        Err(("couldn't use break without loop.".to_string(), "remove this keyword".to_string()))
    );
}

#[test]
fn accepts_return_inside_functions() {
    assert_eq!(check("fn f() { return 1 }"), Ok(()));
    assert_eq!(check("fn f() { if a { return 1 } }"), Ok(()));
}

#[test]
fn rejects_nested_imports() {
    assert_eq!(
        check("fn f() { import 'x' }"),
        Err(("couldn't use import in any block.".to_string(), "you can use import only in main scope.".to_string()))
    );
    assert_eq!(check("import 'x'"), Ok(()));
}

#[test]
fn rejects_error_propagation_outside_functions() {
    assert_eq!(
        check("a?"),
        Err(("couldn't use error propagation outside fn.".to_string(), "you can use it only inside functions.".to_string()))
    );
    assert_eq!(check("fn f() { a? }"), Ok(()));
}

#[test]
fn reports_the_first_error_in_order() {
    assert_eq!(
        check("continue break"),
        Err(("couldn't use continue without loop.".to_string(), "remove this keyword".to_string()))
    );
}

#[test]
fn reports_the_place_of_the_error() {
    let node = parse("a := 1\nbreak");
    let e = Analyzer::new().analyze(&node).unwrap_err();
    assert_eq!(e.addr.line, 2);
}

#[test]
fn analyze_hands_the_program_back() {
    let node = parse("fn f() { return 1 }");
    let again = parse("fn f() { return 1 }");
    assert_eq!(analyze(node).unwrap(), again);
    assert!(analyze(parse("break")).is_err());
}
