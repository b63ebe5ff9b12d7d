use watt::executor::executor::{delete_extension, lex, parse};
use watt::lexer::lexer::{LexFailure, TokenKind};
use watt::parser::ast::Node;
use watt::parser::import::Import;
use watt::resolver::resolver::{ImportFailure, ImportsResolver};

fn chars(s: &str) -> Vec<char> {
    s.chars().collect()
}

fn import_of(file: &str) -> Import {
    Import::new(None, file.to_string(), None)
}

fn decl_names(node: &Node) -> Vec<(String, Option<String>)> {
    match node {
        Node::Block { body } => body
            .iter()
            .map(|n| match n {
                Node::FnDeclaration { name, full_name, .. } => (name.value.clone(), full_name.as_ref().map(|t| t.value.clone())),
                Node::Native { name, .. } => (name.value.clone(), None),
                other => panic!("unexpected node: {:?}", other),
            })
            .collect(),
        other => panic!("not a block: {:?}", other),
    }
}

#[test]
fn resolves_library_names_to_their_files() {
    let resolver = ImportsResolver::new();
    assert_eq!(resolver.resolve_path(&import_of("std.io")), "./libs/std/std_io.wt");
    assert_eq!(resolver.resolve_path(&import_of("std.system")), "./libs/std/std_system.wt");
    assert_eq!(resolver.resolve_path(&import_of("my.wt")), "my.wt");
}

#[test]
fn imports_a_file_once() {
    let mut resolver = ImportsResolver::new();
    let code = chars("fn f() { } a := 1");
    let first = resolver.import(&import_of("my.wt"), &code).ok().unwrap().unwrap();
    assert_eq!(decl_names(&first), vec![("f".to_string(), Some("my:f".to_string()))]);
    assert!(resolver.is_imported(&"my.wt".to_string()));
    let second = resolver.import(&import_of("my.wt"), &code).ok().unwrap();
    assert!(second.is_none());
}

#[test]
fn names_library_declarations_after_the_library_file() {
    let mut resolver = ImportsResolver::new();
    let code = chars("fn sqrt(x) { return x }");
    let node = resolver.import(&import_of("std.math"), &code).ok().unwrap().unwrap();
    assert_eq!(decl_names(&node), vec![("sqrt".to_string(), Some("./libs/std/std_math:sqrt".to_string()))]);
}

#[test]
fn uses_the_given_full_name() {
    let mut resolver = ImportsResolver::new();
    let code = chars("fn f() { }");
    let imp = Import::new(None, "a.wt".to_string(), Some("lib.wt".to_string()));
    let node = resolver.import(&imp, &code).ok().unwrap().unwrap();
    assert_eq!(decl_names(&node), vec![("f".to_string(), Some("lib:f".to_string()))]);
}

#[test]
fn a_failed_import_is_not_recorded() {
    let mut resolver = ImportsResolver::new();
    let code = chars("fn f( {");
    match resolver.import(&import_of("bad.wt"), &code) {
        Err(ImportFailure::Failed(e)) => assert_eq!(e.text, "unexpected token: 'Lbrace:{', expected: 'Id'"),
        _ => panic!("expected a failure"),
    }
    assert!(!resolver.is_imported(&"bad.wt".to_string()));
    let semantic = chars("break");
    match resolver.import(&import_of("bad.wt"), &semantic) {
        Err(ImportFailure::Failed(e)) => assert_eq!(e.text, "couldn't use break without loop."),
        _ => panic!("expected a failure"),
    }
    let endless = chars("a::b");
    assert!(matches!(resolver.import(&import_of("bad.wt"), &endless), Err(ImportFailure::Endless)));
}

#[test]
fn imports_the_builtins_once() {
    let mut resolver = ImportsResolver::new();
    let sources = vec![chars("fn panic(x) { } x := 2")];
    let nodes = resolver.import_builtins(&sources).ok().unwrap();
    assert_eq!(nodes.len(), 1);
    assert_eq!(decl_names(&nodes[0]), vec![("panic".to_string(), Some("./libs/base:panic".to_string()))]);
    assert!(resolver.is_imported(&"./libs/base.wt".to_string()));
    let again = resolver.import_builtins(&sources).ok().unwrap();
    assert!(again.is_empty());
}

#[test]
fn deletes_the_last_extension() {
    assert_eq!(delete_extension("main.wt".to_string()), "main");
    assert_eq!(delete_extension("a.b.c".to_string()), "a.b");
    assert_eq!(delete_extension("name".to_string()), "name");
    assert_eq!(delete_extension(".hidden".to_string()), "");
}

#[test]
fn parses_with_the_file_name_as_prefix() {
    let tokens = lex("main.wt".to_string(), &chars("fn f() { }")).ok().unwrap();
    assert_eq!(tokens[0].tk_type, TokenKind::Fn);
    let node = parse("main.wt".to_string(), tokens, None).unwrap();
    assert_eq!(decl_names(&node), vec![("f".to_string(), Some("main:f".to_string()))]);
    let tokens = lex("main.wt".to_string(), &chars("fn g() { }")).ok().unwrap();
    let node = parse("main.wt".to_string(), tokens, Some("lib.util.wt".to_string())).unwrap();
    assert_eq!(decl_names(&node), vec![("g".to_string(), Some("lib.util:g".to_string()))]);
    assert!(matches!(lex("main.wt".to_string(), &chars("x::y")), Err(LexFailure::Endless)));
}
