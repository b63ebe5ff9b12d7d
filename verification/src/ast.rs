use vstd::prelude::*;
use vstd::string::*;
use crate::errors::{Error, ErrorType};
use crate::import::Import;
use crate::lexer::Token;
use crate::lexer::address::Address;
use crate::text::string_of;

verus! {

/// The syntax tree of the first syntax.
#[derive(Debug, PartialEq, Eq, Hash)]
pub enum Node {
    Block { body: Vec<Box<Node>> },
    Number { value: Token },
    String { value: Token },
    Bool { value: Token },
    Bin { left: Box<Node>, right: Box<Node>, op: Token },
    Unary { value: Box<Node>, op: Token },
    If { location: Token, logical: Box<Node>, body: Box<Node>, elseif: Option<Box<Node>> },
    While { location: Token, logical: Box<Node>, body: Box<Node> },
    Define { previous: Option<Box<Node>>, name: Token, value: Box<Node> },
    Assign { previous: Option<Box<Node>>, name: Token, value: Box<Node> },
    Get { previous: Option<Box<Node>>, name: Token, should_push: bool },
    Call { previous: Option<Box<Node>>, name: Token, args: Vec<Box<Node>>, should_push: bool },
    FnDeclaration { name: Token, full_name: Option<Token>, params: Vec<Token>, body: Box<Node> },
    AnFnDeclaration { location: Token, params: Vec<Token>, body: Box<Node> },
    Break { location: Token },
    Continue { location: Token },
    Import { imports: Vec<Import> },
    List { location: Token, values: Box<Vec<Box<Node>>> },
    Cond { left: Box<Node>, right: Box<Node>, op: Token },
    Logical { left: Box<Node>, right: Box<Node>, op: Token },
    MapLiteral { location: Token, values: Box<Vec<(Box<Node>, Box<Node>)>> },
    Match { location: Token, matchable: Box<Node>, cases: Vec<Box<Node>>, default: Box<Node> },
    Native { name: Token, fn_name: Token },
    Instance { name: Token, constructor: Vec<Box<Node>>, should_push: bool },
    Ret { location: Token, value: Box<Node> },
    Null { location: Token },
    Type { name: Token, full_name: Option<Token>, constructor: Vec<Token>, body: Box<Node> },
    Unit { name: Token, full_name: Option<Token>, body: Box<Node> },
    For { iterable: Box<Node>, variable_name: Token, body: Box<Node> },
}

/// The text `{:?}` writes for a flag.
pub open spec fn bool_shown(b: bool) -> Seq<char> {
    if b { "true"@ } else { "false"@ }
}

/// The text `{:?}` writes for an optional token.
pub open spec fn opt_token_shown(o: Option<Token>) -> Seq<char> {
    match o {
        Some(t) => "Some("@ + t.shown() + ")"@,
        None => "None"@,
    }
}

/// The first `k` tokens of `s`, each as `{:?}` writes it, separated by `, `.
pub open spec fn tokens_join(s: Seq<Token>, k: int) -> Seq<char>
    decreases k,
{
    if k <= 0 || k > s.len() {
        Seq::empty()
    } else if k == 1 {
        s[0].shown()
    } else {
        tokens_join(s, k - 1) + ", "@ + s[k - 1].shown()
    }
}

/// The first `k` imports of `s`, each as `{:?}` writes it, separated by `, `.
pub open spec fn imports_join(s: Seq<Import>, k: int) -> Seq<char>
    decreases k,
{
    if k <= 0 || k > s.len() {
        Seq::empty()
    } else if k == 1 {
        s[0].shown()
    } else {
        imports_join(s, k - 1) + ", "@ + s[k - 1].shown()
    }
}

/// The text `{:?}` writes for a node.
pub open spec fn node_shown(n: Node) -> Seq<char>
    decreases n, 0int,
{
    match n {
        Node::Block { body } => "Block { body: "@ + "["@ + nodes_join(body@, body@.len() as int) + "]"@ + " }"@,
        Node::Number { value } => "Number { value: "@ + value.shown() + " }"@,
        Node::String { value } => "String { value: "@ + value.shown() + " }"@,
        Node::Bool { value } => "Bool { value: "@ + value.shown() + " }"@,
        Node::Bin { left, right, op } => "Bin { left: "@ + node_shown(*left) + ", right: "@ + node_shown(*right) + ", op: "@ + op.shown() + " }"@,
        Node::Unary { value, op } => "Unary { value: "@ + node_shown(*value) + ", op: "@ + op.shown() + " }"@,
        Node::If { location, logical, body, elseif } => "If { location: "@ + location.shown() + ", logical: "@ + node_shown(*logical) + ", body: "@ + node_shown(*body) + ", elseif: "@ + opt_node_shown(elseif) + " }"@,
        Node::While { location, logical, body } => "While { location: "@ + location.shown() + ", logical: "@ + node_shown(*logical) + ", body: "@ + node_shown(*body) + " }"@,
        Node::Define { previous, name, value } => "Define { previous: "@ + opt_node_shown(previous) + ", name: "@ + name.shown() + ", value: "@ + node_shown(*value) + " }"@,
        Node::Assign { previous, name, value } => "Assign { previous: "@ + opt_node_shown(previous) + ", name: "@ + name.shown() + ", value: "@ + node_shown(*value) + " }"@,
        Node::Get { previous, name, should_push } => "Get { previous: "@ + opt_node_shown(previous) + ", name: "@ + name.shown() + ", should_push: "@ + bool_shown(should_push) + " }"@,
        Node::Call { previous, name, args, should_push } => "Call { previous: "@ + opt_node_shown(previous) + ", name: "@ + name.shown() + ", args: "@ + "["@ + nodes_join(args@, args@.len() as int) + "]"@ + ", should_push: "@ + bool_shown(should_push) + " }"@,
        Node::FnDeclaration { name, full_name, params, body } => "FnDeclaration { name: "@ + name.shown() + ", full_name: "@ + opt_token_shown(full_name) + ", params: "@ + "["@ + tokens_join(params@, params@.len() as int) + "]"@ + ", body: "@ + node_shown(*body) + " }"@,
        Node::AnFnDeclaration { location, params, body } => "AnFnDeclaration { location: "@ + location.shown() + ", params: "@ + "["@ + tokens_join(params@, params@.len() as int) + "]"@ + ", body: "@ + node_shown(*body) + " }"@,
        Node::Break { location } => "Break { location: "@ + location.shown() + " }"@,
        Node::Continue { location } => "Continue { location: "@ + location.shown() + " }"@,
        Node::Import { imports } => "Import { imports: "@ + "["@ + imports_join(imports@, imports@.len() as int) + "]"@ + " }"@,
        Node::List { location, values } => "List { location: "@ + location.shown() + ", values: "@ + "["@ + nodes_join((*values)@, (*values)@.len() as int) + "]"@ + " }"@,
        Node::Cond { left, right, op } => "Cond { left: "@ + node_shown(*left) + ", right: "@ + node_shown(*right) + ", op: "@ + op.shown() + " }"@,
        Node::Logical { left, right, op } => "Logical { left: "@ + node_shown(*left) + ", right: "@ + node_shown(*right) + ", op: "@ + op.shown() + " }"@,
        Node::MapLiteral { location, values } => "MapLiteral { location: "@ + location.shown() + ", values: "@ + "["@ + pairs_join((*values)@, (*values)@.len() as int) + "]"@ + " }"@,
        Node::Match { location, matchable, cases, default } => "Match { location: "@ + location.shown() + ", matchable: "@ + node_shown(*matchable) + ", cases: "@ + "["@ + nodes_join(cases@, cases@.len() as int) + "]"@ + ", default: "@ + node_shown(*default) + " }"@,
        Node::Native { name, fn_name } => "Native { name: "@ + name.shown() + ", fn_name: "@ + fn_name.shown() + " }"@,
        Node::Instance { name, constructor, should_push } => "Instance { name: "@ + name.shown() + ", constructor: "@ + "["@ + nodes_join(constructor@, constructor@.len() as int) + "]"@ + ", should_push: "@ + bool_shown(should_push) + " }"@,
        Node::Ret { location, value } => "Ret { location: "@ + location.shown() + ", value: "@ + node_shown(*value) + " }"@,
        Node::Null { location } => "Null { location: "@ + location.shown() + " }"@,
        Node::Type { name, full_name, constructor, body } => "Type { name: "@ + name.shown() + ", full_name: "@ + opt_token_shown(full_name) + ", constructor: "@ + "["@ + tokens_join(constructor@, constructor@.len() as int) + "]"@ + ", body: "@ + node_shown(*body) + " }"@,
        Node::Unit { name, full_name, body } => "Unit { name: "@ + name.shown() + ", full_name: "@ + opt_token_shown(full_name) + ", body: "@ + node_shown(*body) + " }"@,
        Node::For { iterable, variable_name, body } => "For { iterable: "@ + node_shown(*iterable) + ", variable_name: "@ + variable_name.shown() + ", body: "@ + node_shown(*body) + " }"@,
    }
}

/// The text `{:?}` writes for an optional node.
pub open spec fn opt_node_shown(o: Option<Box<Node>>) -> Seq<char>
    decreases o, 0int,
{
    match o {
        Some(b) => "Some("@ + node_shown(*b) + ")"@,
        None => "None"@,
    }
}

/// The first `k` nodes of `s`, each as `{:?}` writes it, separated by `, `.
pub open spec fn nodes_join(s: Seq<Box<Node>>, k: int) -> Seq<char>
    decreases s, k,
{
    if k <= 0 || k > s.len() {
        Seq::empty()
    } else if k == 1 {
        node_shown(*s[0])
    } else {
        nodes_join(s, k - 1) + ", "@ + node_shown(*s[k - 1])
    }
}

/// The first `k` pairs of `s`, each as `(key, value)`, separated by `, `.
pub open spec fn pairs_join(s: Seq<(Box<Node>, Box<Node>)>, k: int) -> Seq<char>
    decreases s, k,
{
    if k <= 0 || k > s.len() {
        Seq::empty()
    } else if k == 1 {
        "("@ + node_shown(*s[0].0) + ", "@ + node_shown(*s[0].1) + ")"@
    } else {
        pairs_join(s, k - 1) + ", "@ + "("@ + node_shown(*s[k - 1].0) + ", "@ + node_shown(*s[k - 1].1) + ")"@
    }
}

/// The text `{:?}` writes for a flag.
fn bool_text(b: bool) -> (r: String)
    ensures
        r@ =~= bool_shown(b),
{
    if b { string_of("true") } else { string_of("false") }
}

/// The text `{:?}` writes for an optional token.
fn opt_token_text(o: &Option<Token>) -> (r: String)
    ensures
        r@ =~= opt_token_shown(*o),
{
    match o {
        Some(t) => {
            let mut s = string_of("Some(");
            s.append(t.shown_text().as_str());
            s.append(")");
            s
        },
        None => string_of("None"),
    }
}

/// The text `{:?}` writes for a list of tokens.
fn tokens_text(v: &Vec<Token>) -> (r: String)
    ensures
        r@ =~= "["@ + tokens_join(v@, v@.len() as int) + "]"@,
{
    let mut s = string_of("[");
    let mut i: usize = 0;
    while i < v.len()
        invariant
            i <= v@.len(),
            s@ =~= "["@ + tokens_join(v@, i as int),
        decreases v@.len() - i,
    {
        if i > 0 {
            s.append(", ");
        }
        s.append(v[i].shown_text().as_str());
        i = i + 1;
    }
    s.append("]");
    s
}

/// The text `{:?}` writes for a list of imports.
fn imports_text(v: &Vec<Import>) -> (r: String)
    ensures
        r@ =~= "["@ + imports_join(v@, v@.len() as int) + "]"@,
{
    let mut s = string_of("[");
    let mut i: usize = 0;
    while i < v.len()
        invariant
            i <= v@.len(),
            s@ =~= "["@ + imports_join(v@, i as int),
        decreases v@.len() - i,
    {
        if i > 0 {
            s.append(", ");
        }
        s.append(v[i].shown_text().as_str());
        i = i + 1;
    }
    s.append("]");
    s
}

/// The text `{:?}` writes for an optional node.
fn opt_node_text(o: &Option<Box<Node>>) -> (r: String)
    ensures
        r@ =~= opt_node_shown(*o),
    decreases o, 2int,
{
    match o {
        Some(b) => {
            let mut s = string_of("Some(");
            s.append(node_text(&**b).as_str());
            s.append(")");
            s
        },
        None => string_of("None"),
    }
}

/// The text `{:?}` writes for a list of nodes.
fn nodes_text(v: &Vec<Box<Node>>) -> (r: String)
    ensures
        r@ =~= "["@ + nodes_join(v@, v@.len() as int) + "]"@,
    decreases v, 2int,
{
    let mut s = string_of("[");
    let mut i: usize = 0;
    while i < v.len()
        invariant
            i <= v@.len(),
            s@ =~= "["@ + nodes_join(v@, i as int),
        decreases v@.len() - i,
    {
        proof {
            assert(decreases_to!(v => v@[i as int]));
        }
        if i > 0 {
            s.append(", ");
        }
        s.append(node_text(&*v[i]).as_str());
        i = i + 1;
    }
    s.append("]");
    s
}

/// The text `{:?}` writes for a list of key-value pairs.
fn pairs_text(v: &Vec<(Box<Node>, Box<Node>)>) -> (r: String)
    ensures
        r@ =~= "["@ + pairs_join(v@, v@.len() as int) + "]"@,
    decreases v, 2int,
{
    let mut s = string_of("[");
    let mut i: usize = 0;
    while i < v.len()
        invariant
            i <= v@.len(),
            s@ =~= "["@ + pairs_join(v@, i as int),
        decreases v@.len() - i,
    {
        proof {
            assert(decreases_to!(v => v@[i as int]));
        }
        if i > 0 {
            s.append(", ");
        }
        s.append("(");
        s.append(node_text(&*v[i].0).as_str());
        s.append(", ");
        s.append(node_text(&*v[i].1).as_str());
        s.append(")");
        i = i + 1;
    }
    s.append("]");
    s
}

/// The text `{:?}` writes for a node.
#[verifier::spinoff_prover]
#[verifier::rlimit(100)]
pub fn node_text(node: &Node) -> (r: String)
    ensures
        r@ =~= node_shown(*node),
    decreases node, 1int,
{
    match node {
        Node::Block { body } => {
            let mut s = string_of("Block { body: ");
            let part = nodes_text(body);
            s.append(part.as_str());
            s.append(" }");
            s
        },
        Node::Number { value } => {
            let mut s = string_of("Number { value: ");
            let part = value.shown_text();
            s.append(part.as_str());
            s.append(" }");
            s
        },
        Node::String { value } => {
            let mut s = string_of("String { value: ");
            let part = value.shown_text();
            s.append(part.as_str());
            s.append(" }");
            s
        },
        Node::Bool { value } => {
            let mut s = string_of("Bool { value: ");
            let part = value.shown_text();
            s.append(part.as_str());
            s.append(" }");
            s
        },
        Node::Bin { left, right, op } => {
            let mut s = string_of("Bin { left: ");
            let part = node_text(&**left);
            s.append(part.as_str());
            s.append(", right: ");
            let part = node_text(&**right);
            s.append(part.as_str());
            s.append(", op: ");
            let part = op.shown_text();
            s.append(part.as_str());
            s.append(" }");
            s
        },
        Node::Unary { value, op } => {
            let mut s = string_of("Unary { value: ");
            let part = node_text(&**value);
            s.append(part.as_str());
            s.append(", op: ");
            let part = op.shown_text();
            s.append(part.as_str());
            s.append(" }");
            s
        },
        Node::If { location, logical, body, elseif } => {
            let mut s = string_of("If { location: ");
            let part = location.shown_text();
            s.append(part.as_str());
            s.append(", logical: ");
            let part = node_text(&**logical);
            s.append(part.as_str());
            s.append(", body: ");
            let part = node_text(&**body);
            s.append(part.as_str());
            s.append(", elseif: ");
            let part = opt_node_text(elseif);
            s.append(part.as_str());
            s.append(" }");
            s
        },
        Node::While { location, logical, body } => {
            let mut s = string_of("While { location: ");
            let part = location.shown_text();
            s.append(part.as_str());
            s.append(", logical: ");
            let part = node_text(&**logical);
            s.append(part.as_str());
            s.append(", body: ");
            let part = node_text(&**body);
            s.append(part.as_str());
            s.append(" }");
            s
        },
        Node::Define { previous, name, value } => {
            let mut s = string_of("Define { previous: ");
            let part = opt_node_text(previous);
            s.append(part.as_str());
            s.append(", name: ");
            let part = name.shown_text();
            s.append(part.as_str());
            s.append(", value: ");
            let part = node_text(&**value);
            s.append(part.as_str());
            s.append(" }");
            s
        },
        Node::Assign { previous, name, value } => {
            let mut s = string_of("Assign { previous: ");
            let part = opt_node_text(previous);
            s.append(part.as_str());
            s.append(", name: ");
            let part = name.shown_text();
            s.append(part.as_str());
            s.append(", value: ");
            let part = node_text(&**value);
            s.append(part.as_str());
            s.append(" }");
            s
        },
        Node::Get { previous, name, should_push } => {
            let mut s = string_of("Get { previous: ");
            let part = opt_node_text(previous);
            s.append(part.as_str());
            s.append(", name: ");
            let part = name.shown_text();
            s.append(part.as_str());
            s.append(", should_push: ");
            let part = bool_text(*should_push);
            s.append(part.as_str());
            s.append(" }");
            s
        },
        Node::Call { previous, name, args, should_push } => {
            let mut s = string_of("Call { previous: ");
            let part = opt_node_text(previous);
            s.append(part.as_str());
            s.append(", name: ");
            let part = name.shown_text();
            s.append(part.as_str());
            s.append(", args: ");
            let part = nodes_text(args);
            s.append(part.as_str());
            s.append(", should_push: ");
            let part = bool_text(*should_push);
            s.append(part.as_str());
            s.append(" }");
            s
        },
        Node::FnDeclaration { name, full_name, params, body } => {
            let mut s = string_of("FnDeclaration { name: ");
            let part = name.shown_text();
            s.append(part.as_str());
            s.append(", full_name: ");
            let part = opt_token_text(full_name);
            s.append(part.as_str());
            s.append(", params: ");
            let part = tokens_text(params);
            s.append(part.as_str());
            s.append(", body: ");
            let part = node_text(&**body);
            s.append(part.as_str());
            s.append(" }");
            s
        },
        Node::AnFnDeclaration { location, params, body } => {
            let mut s = string_of("AnFnDeclaration { location: ");
            let part = location.shown_text();
            s.append(part.as_str());
            s.append(", params: ");
            let part = tokens_text(params);
            s.append(part.as_str());
            s.append(", body: ");
            let part = node_text(&**body);
            s.append(part.as_str());
            s.append(" }");
            s
        },
        Node::Break { location } => {
            let mut s = string_of("Break { location: ");
            let part = location.shown_text();
            s.append(part.as_str());
            s.append(" }");
            s
        },
        Node::Continue { location } => {
            let mut s = string_of("Continue { location: ");
            let part = location.shown_text();
            s.append(part.as_str());
            s.append(" }");
            s
        },
        Node::Import { imports } => {
            let mut s = string_of("Import { imports: ");
            let part = imports_text(imports);
            s.append(part.as_str());
            s.append(" }");
            s
        },
        Node::List { location, values } => {
            let mut s = string_of("List { location: ");
            let part = location.shown_text();
            s.append(part.as_str());
            s.append(", values: ");
            let part = nodes_text(&**values);
            s.append(part.as_str());
            s.append(" }");
            s
        },
        Node::Cond { left, right, op } => {
            let mut s = string_of("Cond { left: ");
            let part = node_text(&**left);
            s.append(part.as_str());
            s.append(", right: ");
            let part = node_text(&**right);
            s.append(part.as_str());
            s.append(", op: ");
            let part = op.shown_text();
            s.append(part.as_str());
            s.append(" }");
            s
        },
        Node::Logical { left, right, op } => {
            let mut s = string_of("Logical { left: ");
            let part = node_text(&**left);
            s.append(part.as_str());
            s.append(", right: ");
            let part = node_text(&**right);
            s.append(part.as_str());
            s.append(", op: ");
            let part = op.shown_text();
            s.append(part.as_str());
            s.append(" }");
            s
        },
        Node::MapLiteral { location, values } => {
            let mut s = string_of("MapLiteral { location: ");
            let part = location.shown_text();
            s.append(part.as_str());
            s.append(", values: ");
            let part = pairs_text(&**values);
            s.append(part.as_str());
            s.append(" }");
            s
        },
        Node::Match { location, matchable, cases, default } => {
            let mut s = string_of("Match { location: ");
            let part = location.shown_text();
            s.append(part.as_str());
            s.append(", matchable: ");
            let part = node_text(&**matchable);
            s.append(part.as_str());
            s.append(", cases: ");
            let part = nodes_text(cases);
            s.append(part.as_str());
            s.append(", default: ");
            let part = node_text(&**default);
            s.append(part.as_str());
            s.append(" }");
            s
        },
        Node::Native { name, fn_name } => {
            let mut s = string_of("Native { name: ");
            let part = name.shown_text();
            s.append(part.as_str());
            s.append(", fn_name: ");
            let part = fn_name.shown_text();
            s.append(part.as_str());
            s.append(" }");
            s
        },
        Node::Instance { name, constructor, should_push } => {
            let mut s = string_of("Instance { name: ");
            let part = name.shown_text();
            s.append(part.as_str());
            s.append(", constructor: ");
            let part = nodes_text(constructor);
            s.append(part.as_str());
            s.append(", should_push: ");
            let part = bool_text(*should_push);
            s.append(part.as_str());
            s.append(" }");
            s
        },
        Node::Ret { location, value } => {
            let mut s = string_of("Ret { location: ");
            let part = location.shown_text();
            s.append(part.as_str());
            s.append(", value: ");
            let part = node_text(&**value);
            s.append(part.as_str());
            s.append(" }");
            s
        },
        Node::Null { location } => {
            let mut s = string_of("Null { location: ");
            let part = location.shown_text();
            s.append(part.as_str());
            s.append(" }");
            s
        },
        Node::Type { name, full_name, constructor, body } => {
            let mut s = string_of("Type { name: ");
            let part = name.shown_text();
            s.append(part.as_str());
            s.append(", full_name: ");
            let part = opt_token_text(full_name);
            s.append(part.as_str());
            s.append(", constructor: ");
            let part = tokens_text(constructor);
            s.append(part.as_str());
            s.append(", body: ");
            let part = node_text(&**body);
            s.append(part.as_str());
            s.append(" }");
            s
        },
        Node::Unit { name, full_name, body } => {
            let mut s = string_of("Unit { name: ");
            let part = name.shown_text();
            s.append(part.as_str());
            s.append(", full_name: ");
            let part = opt_token_text(full_name);
            s.append(part.as_str());
            s.append(", body: ");
            let part = node_text(&**body);
            s.append(part.as_str());
            s.append(" }");
            s
        },
        Node::For { iterable, variable_name, body } => {
            let mut s = string_of("For { iterable: ");
            let part = node_text(&**iterable);
            s.append(part.as_str());
            s.append(", variable_name: ");
            let part = variable_name.shown_text();
            s.append(part.as_str());
            s.append(", body: ");
            let part = node_text(&**body);
            s.append(part.as_str());
            s.append(" }");
            s
        },
    }
}

/// Sets whether a read, call or instance creation leaves its value on the
/// stack; any other node is an error at `address`, whose text ends with the
/// node's `{:?}` text.
pub fn set_should_push(node: Node, should_push: bool, address: Address) -> (r: Result<Node, Error>)
    ensures
        match node {
            Node::Get { previous, name, .. } => r == Ok::<Node, Error>(Node::Get { previous, name, should_push }),
            Node::Call { previous, name, args, .. } => r == Ok::<Node, Error>(Node::Call { previous, name, args, should_push }),
            Node::Instance { name, constructor, .. } => r == Ok::<Node, Error>(Node::Instance { name, constructor, should_push }),
            _ => match r {
                Ok(_) => false,
                Err(e) => e.kind() == ErrorType::Parsing && e.address() == address
                    && e.text() == "couldn't apply should_push changes to: "@ + node_shown(node)
                    && e.hint() == "check your code."@,
            },
        },
{
    match node {
        Node::Get { previous, name, .. } => Ok(Node::Get { previous, name, should_push }),
        Node::Call { previous, name, args, .. } => Ok(Node::Call { previous, name, args, should_push }),
        Node::Instance { name, constructor, .. } => Ok(Node::Instance { name, constructor, should_push }),
        _ => {
            let mut text = string_of("couldn't apply should_push changes to: ");
            let shown = node_text(&node);
            text.append(shown.as_str());
            Err(Error::new(ErrorType::Parsing, address, text, string_of("check your code.")))
        },
    }
}

} // verus!
