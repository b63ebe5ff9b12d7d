use vstd::prelude::*;
use crate::lexer::lexer::{Token, TokenView, tokens_view};
use crate::parser::import::{Import, ImportView};

verus! {

/// A case of a `match`: the value compared against and the body run.
#[derive(Debug, PartialEq, Eq, Hash)]
pub struct MatchCase {
    pub value: Box<Node>,
    pub body: Box<Node>,
}

impl MatchCase {
    pub fn new(value: Box<Node>, body: Box<Node>) -> (r: Self)
        ensures
            r == (MatchCase { value, body }),
    {
        MatchCase { value, body }
    }
}

/// A function declared in a trait, with an optional default body.
#[derive(Debug, PartialEq, Eq, Hash)]
pub struct TraitNodeFn {
    pub name: Token,
    pub params: Vec<Token>,
    pub default: Option<Box<Node>>,
}

impl TraitNodeFn {
    pub fn new(name: Token, params: Vec<Token>, default: Option<Box<Node>>) -> (r: Self)
        ensures
            r == (TraitNodeFn { name, params, default }),
    {
        TraitNodeFn { name, params, default }
    }
}

/// The syntax tree the parser builds.
#[derive(Debug, PartialEq, Eq, Hash)]
pub enum Node {
    Block { body: Vec<Node> },
    Number { value: Token },
    String { value: Token },
    Bool { value: Token },
    Bin { left: Box<Node>, right: Box<Node>, op: Token },
    Unary { op: Token, value: Box<Node> },
    If { location: Token, logical: Box<Node>, body: Box<Node>, elseif: Option<Box<Node>> },
    While { location: Token, logical: Box<Node>, body: Box<Node> },
    Define { previous: Option<Box<Node>>, name: Token, value: Box<Node> },
    Assign { previous: Option<Box<Node>>, name: Token, value: Box<Node> },
    Get { previous: Option<Box<Node>>, name: Token, should_push: bool },
    Call { previous: Option<Box<Node>>, name: Token, args: Vec<Node>, should_push: bool },
    FnDeclaration { name: Token, full_name: Option<Token>, params: Vec<Token>, body: Box<Node>, make_closure: bool },
    AnFnDeclaration { location: Token, params: Vec<Token>, body: Box<Node>, make_closure: bool },
    Break { location: Token },
    Continue { location: Token },
    Import { location: Token, imports: Vec<Import> },
    List { location: Token, values: Vec<Node> },
    Cond { left: Box<Node>, right: Box<Node>, op: Token },
    Logical { left: Box<Node>, right: Box<Node>, op: Token },
    MapLiteral { location: Token, values: Vec<(Node, Node)> },
    Match { location: Token, matchable: Box<Node>, cases: Vec<MatchCase>, default: Box<Node> },
    Native { name: Token, fn_name: Token },
    Instance { name: Token, constructor: Vec<Node>, should_push: bool },
    Ret { location: Token, value: Box<Node> },
    Null { location: Token },
    Type { name: Token, full_name: Option<Token>, constructor: Vec<Token>, body: Box<Node>, impls: Vec<Token> },
    Unit { name: Token, full_name: Option<Token>, body: Box<Node> },
    For { iterable: Box<Node>, variable_name: Token, body: Box<Node> },
    Trait { name: Token, full_name: Option<Token>, functions: Vec<TraitNodeFn> },
    ErrorPropagation { location: Token, value: Box<Node>, should_push: bool },
    Impls { value: Box<Node>, trait_name: Token },
    Range { location: Token, from: Box<Node>, to: Box<Node> },
}

/// The mathematical content of a [`MatchCase`].
pub struct MatchCaseView {
    pub value: Box<NodeView>,
    pub body: Box<NodeView>,
}

/// The mathematical content of a [`TraitNodeFn`].
pub struct TraitFnView {
    pub name: TokenView,
    pub params: Seq<TokenView>,
    pub default: Option<Box<NodeView>>,
}

/// The mathematical content of a [`Node`].
pub enum NodeView {
    Block { body: Seq<NodeView> },
    Number { value: TokenView },
    String { value: TokenView },
    Bool { value: TokenView },
    Bin { left: Box<NodeView>, right: Box<NodeView>, op: TokenView },
    Unary { op: TokenView, value: Box<NodeView> },
    If { location: TokenView, logical: Box<NodeView>, body: Box<NodeView>, elseif: Option<Box<NodeView>> },
    While { location: TokenView, logical: Box<NodeView>, body: Box<NodeView> },
    Define { previous: Option<Box<NodeView>>, name: TokenView, value: Box<NodeView> },
    Assign { previous: Option<Box<NodeView>>, name: TokenView, value: Box<NodeView> },
    Get { previous: Option<Box<NodeView>>, name: TokenView, should_push: bool },
    Call { previous: Option<Box<NodeView>>, name: TokenView, args: Seq<NodeView>, should_push: bool },
    FnDeclaration { name: TokenView, full_name: Option<TokenView>, params: Seq<TokenView>, body: Box<NodeView>, make_closure: bool },
    AnFnDeclaration { location: TokenView, params: Seq<TokenView>, body: Box<NodeView>, make_closure: bool },
    Break { location: TokenView },
    Continue { location: TokenView },
    Import { location: TokenView, imports: Seq<ImportView> },
    List { location: TokenView, values: Seq<NodeView> },
    Cond { left: Box<NodeView>, right: Box<NodeView>, op: TokenView },
    Logical { left: Box<NodeView>, right: Box<NodeView>, op: TokenView },
    MapLiteral { location: TokenView, values: Seq<(NodeView, NodeView)> },
    Match { location: TokenView, matchable: Box<NodeView>, cases: Seq<MatchCaseView>, default: Box<NodeView> },
    Native { name: TokenView, fn_name: TokenView },
    Instance { name: TokenView, constructor: Seq<NodeView>, should_push: bool },
    Ret { location: TokenView, value: Box<NodeView> },
    Null { location: TokenView },
    Type { name: TokenView, full_name: Option<TokenView>, constructor: Seq<TokenView>, body: Box<NodeView>, impls: Seq<TokenView> },
    Unit { name: TokenView, full_name: Option<TokenView>, body: Box<NodeView> },
    For { iterable: Box<NodeView>, variable_name: TokenView, body: Box<NodeView> },
    Trait { name: TokenView, full_name: Option<TokenView>, functions: Seq<TraitFnView> },
    ErrorPropagation { location: TokenView, value: Box<NodeView>, should_push: bool },
    Impls { value: Box<NodeView>, trait_name: TokenView },
    Range { location: TokenView, from: Box<NodeView>, to: Box<NodeView> },
}

pub open spec fn opt_token_view(t: Option<Token>) -> Option<TokenView> {
    match t {
        Some(t) => Some(t@),
        None => None,
    }
}

pub open spec fn imports_view(s: Seq<Import>) -> Seq<ImportView> {
    s.map_values(|i: Import| i@)
}

/// The views of a sequence of nodes.
pub open spec fn nodes_view(s: Seq<Node>) -> Seq<NodeView>
    decreases s,
{
    Seq::new(s.len(), |i: int| if 0 <= i < s.len() { node_view(&s[i]) } else { NodeView::Block { body: Seq::empty() } })
}

pub open spec fn opt_node_view(n: Option<Box<Node>>) -> Option<Box<NodeView>>
    decreases n,
{
    match n {
        Some(b) => Some(Box::new(node_view(&*b))),
        None => None,
    }
}

pub open spec fn pairs_view(s: Seq<(Node, Node)>) -> Seq<(NodeView, NodeView)>
    decreases s,
{
    Seq::new(s.len(), |i: int| if 0 <= i < s.len() { (node_view(&s[i].0), node_view(&s[i].1)) } else { (NodeView::Block { body: Seq::empty() }, NodeView::Block { body: Seq::empty() }) })
}

pub open spec fn cases_view(s: Seq<MatchCase>) -> Seq<MatchCaseView>
    decreases s,
{
    Seq::new(s.len(), |i: int| if 0 <= i < s.len() { MatchCaseView { value: Box::new(node_view(&*s[i].value)), body: Box::new(node_view(&*s[i].body)) } } else { MatchCaseView { value: Box::new(NodeView::Block { body: Seq::empty() }), body: Box::new(NodeView::Block { body: Seq::empty() }) } })
}

pub open spec fn trait_fns_view(s: Seq<TraitNodeFn>) -> Seq<TraitFnView>
    decreases s,
{
    Seq::new(s.len(), |i: int| if 0 <= i < s.len() { TraitFnView { name: s[i].name@, params: tokens_view(s[i].params@), default: opt_node_view(s[i].default) } } else { TraitFnView { name: s[0].name@, params: Seq::empty(), default: None } })
}

/// The view of one node.
pub open spec fn node_view(n: &Node) -> NodeView
    decreases n,
{
    match n {
        Node::Block { body } => NodeView::Block { body: nodes_view(body@) },
        Node::Number { value } => NodeView::Number { value: value@ },
        Node::String { value } => NodeView::String { value: value@ },
        Node::Bool { value } => NodeView::Bool { value: value@ },
        Node::Bin { left, right, op } => NodeView::Bin { left: Box::new(node_view(&**left)), right: Box::new(node_view(&**right)), op: op@ },
        Node::Unary { op, value } => NodeView::Unary { op: op@, value: Box::new(node_view(&**value)) },
        Node::If { location, logical, body, elseif } => NodeView::If { location: location@, logical: Box::new(node_view(&**logical)), body: Box::new(node_view(&**body)), elseif: opt_node_view(*elseif) },
        Node::While { location, logical, body } => NodeView::While { location: location@, logical: Box::new(node_view(&**logical)), body: Box::new(node_view(&**body)) },
        Node::Define { previous, name, value } => NodeView::Define { previous: opt_node_view(*previous), name: name@, value: Box::new(node_view(&**value)) },
        Node::Assign { previous, name, value } => NodeView::Assign { previous: opt_node_view(*previous), name: name@, value: Box::new(node_view(&**value)) },
        Node::Get { previous, name, should_push } => NodeView::Get { previous: opt_node_view(*previous), name: name@, should_push: *should_push },
        Node::Call { previous, name, args, should_push } => NodeView::Call { previous: opt_node_view(*previous), name: name@, args: nodes_view(args@), should_push: *should_push },
        Node::FnDeclaration { name, full_name, params, body, make_closure } => NodeView::FnDeclaration { name: name@, full_name: opt_token_view(*full_name), params: tokens_view(params@), body: Box::new(node_view(&**body)), make_closure: *make_closure },
        Node::AnFnDeclaration { location, params, body, make_closure } => NodeView::AnFnDeclaration { location: location@, params: tokens_view(params@), body: Box::new(node_view(&**body)), make_closure: *make_closure },
        Node::Break { location } => NodeView::Break { location: location@ },
        Node::Continue { location } => NodeView::Continue { location: location@ },
        Node::Import { location, imports } => NodeView::Import { location: location@, imports: imports_view(imports@) },
        Node::List { location, values } => NodeView::List { location: location@, values: nodes_view(values@) },
        Node::Cond { left, right, op } => NodeView::Cond { left: Box::new(node_view(&**left)), right: Box::new(node_view(&**right)), op: op@ },
        Node::Logical { left, right, op } => NodeView::Logical { left: Box::new(node_view(&**left)), right: Box::new(node_view(&**right)), op: op@ },
        Node::MapLiteral { location, values } => NodeView::MapLiteral { location: location@, values: pairs_view(values@) },
        Node::Match { location, matchable, cases, default } => NodeView::Match { location: location@, matchable: Box::new(node_view(&**matchable)), cases: cases_view(cases@), default: Box::new(node_view(&**default)) },
        Node::Native { name, fn_name } => NodeView::Native { name: name@, fn_name: fn_name@ },
        Node::Instance { name, constructor, should_push } => NodeView::Instance { name: name@, constructor: nodes_view(constructor@), should_push: *should_push },
        Node::Ret { location, value } => NodeView::Ret { location: location@, value: Box::new(node_view(&**value)) },
        Node::Null { location } => NodeView::Null { location: location@ },
        Node::Type { name, full_name, constructor, body, impls } => NodeView::Type { name: name@, full_name: opt_token_view(*full_name), constructor: tokens_view(constructor@), body: Box::new(node_view(&**body)), impls: tokens_view(impls@) },
        Node::Unit { name, full_name, body } => NodeView::Unit { name: name@, full_name: opt_token_view(*full_name), body: Box::new(node_view(&**body)) },
        Node::For { iterable, variable_name, body } => NodeView::For { iterable: Box::new(node_view(&**iterable)), variable_name: variable_name@, body: Box::new(node_view(&**body)) },
        Node::Trait { name, full_name, functions } => NodeView::Trait { name: name@, full_name: opt_token_view(*full_name), functions: trait_fns_view(functions@) },
        Node::ErrorPropagation { location, value, should_push } => NodeView::ErrorPropagation { location: location@, value: Box::new(node_view(&**value)), should_push: *should_push },
        Node::Impls { value, trait_name } => NodeView::Impls { value: Box::new(node_view(&**value)), trait_name: trait_name@ },
        Node::Range { location, from, to } => NodeView::Range { location: location@, from: Box::new(node_view(&**from)), to: Box::new(node_view(&**to)) },
    }
}

impl View for Node {
    type V = NodeView;

    open spec fn view(&self) -> NodeView {
        node_view(self)
    }
}

/// `node` with its push flag set to `should_push`, where it has one that
/// the parser sets (reads, calls and instance creations).
pub open spec fn with_should_push(node: NodeView, should_push: bool) -> NodeView {
    match node {
        NodeView::Get { previous, name, .. } => NodeView::Get { previous, name, should_push },
        NodeView::Call { previous, name, args, .. } => NodeView::Call { previous, name, args, should_push },
        NodeView::Instance { name, constructor, .. } => NodeView::Instance { name, constructor, should_push },
        _ => node,
    }
}

/// Setting the push flag twice is setting it once, to the second value.
pub proof fn law_should_push_last_wins(node: NodeView, first: bool, second: bool)
    ensures
        with_should_push(with_should_push(node, first), second) == with_should_push(node, second),
{
}

/// Sets whether the value of a read, call or instance creation is pushed;
/// any other node comes back unchanged.
pub fn set_should_push(node: Node, should_push: bool) -> (r: Node)
    ensures
        r@ == with_should_push(node@, should_push),
{
    match node {
        Node::Get { previous, name, .. } => Node::Get { previous, name, should_push },
        Node::Call { previous, name, args, .. } => Node::Call { previous, name, args, should_push },
        Node::Instance { name, constructor, .. } => Node::Instance { name, constructor, should_push },
        _ => node,
    }
}

/// A copy of a list of tokens.
pub fn clone_tokens(v: &Vec<Token>) -> (r: Vec<Token>)
    ensures
        r@ == v@,
{
    let mut r: Vec<Token> = Vec::new();
    let mut i: usize = 0;
    while i < v.len()
        invariant
            i <= v.len(),
            r@ == v@.subrange(0, i as int),
        decreases v.len() - i,
    {
        r.push(v[i].clone());
        i = i + 1;
    }
    assert(r@ =~= v@);
    r
}

/// A copy of a list of imports.
pub fn clone_imports(v: &Vec<Import>) -> (r: Vec<Import>)
    ensures
        r@ == v@,
{
    let mut r: Vec<Import> = Vec::new();
    let mut i: usize = 0;
    while i < v.len()
        invariant
            i <= v.len(),
            r@ == v@.subrange(0, i as int),
        decreases v.len() - i,
    {
        r.push(v[i].clone());
        i = i + 1;
    }
    assert(r@ =~= v@);
    r
}

fn clone_opt_token(t: &Option<Token>) -> (r: Option<Token>)
    ensures
        r == *t,
{
    match t {
        Some(t) => Some(t.clone()),
        None => None,
    }
}

/// A copy of a node, equal to it in every token and flag.
#[verifier::rlimit(100)]
#[verifier::spinoff_prover]
pub fn clone_node(n: &Node) -> (r: Node)
    ensures
        r@ == n@,
    decreases n, 1int,
{
    match n {
        Node::Block { body } => Node::Block { body: clone_nodes(body) },
        Node::Number { value } => Node::Number { value: value.clone() },
        Node::String { value } => Node::String { value: value.clone() },
        Node::Bool { value } => Node::Bool { value: value.clone() },
        Node::Bin { left, right, op } => Node::Bin { left: Box::new(clone_node(left)), right: Box::new(clone_node(right)), op: op.clone() },
        Node::Unary { op, value } => Node::Unary { op: op.clone(), value: Box::new(clone_node(value)) },
        Node::If { location, logical, body, elseif } => Node::If { location: location.clone(), logical: Box::new(clone_node(logical)), body: Box::new(clone_node(body)), elseif: clone_opt_node(elseif) },
        Node::While { location, logical, body } => Node::While { location: location.clone(), logical: Box::new(clone_node(logical)), body: Box::new(clone_node(body)) },
        Node::Define { previous, name, value } => Node::Define { previous: clone_opt_node(previous), name: name.clone(), value: Box::new(clone_node(value)) },
        Node::Assign { previous, name, value } => Node::Assign { previous: clone_opt_node(previous), name: name.clone(), value: Box::new(clone_node(value)) },
        Node::Get { previous, name, should_push } => Node::Get { previous: clone_opt_node(previous), name: name.clone(), should_push: *should_push },
        Node::Call { previous, name, args, should_push } => Node::Call { previous: clone_opt_node(previous), name: name.clone(), args: clone_nodes(args), should_push: *should_push },
        Node::FnDeclaration { name, full_name, params, body, make_closure } => Node::FnDeclaration { name: name.clone(), full_name: clone_opt_token(full_name), params: clone_tokens(params), body: Box::new(clone_node(body)), make_closure: *make_closure },
        Node::AnFnDeclaration { location, params, body, make_closure } => Node::AnFnDeclaration { location: location.clone(), params: clone_tokens(params), body: Box::new(clone_node(body)), make_closure: *make_closure },
        Node::Break { location } => Node::Break { location: location.clone() },
        Node::Continue { location } => Node::Continue { location: location.clone() },
        Node::Import { location, imports } => Node::Import { location: location.clone(), imports: clone_imports(imports) },
        Node::List { location, values } => Node::List { location: location.clone(), values: clone_nodes(values) },
        Node::Cond { left, right, op } => Node::Cond { left: Box::new(clone_node(left)), right: Box::new(clone_node(right)), op: op.clone() },
        Node::Logical { left, right, op } => Node::Logical { left: Box::new(clone_node(left)), right: Box::new(clone_node(right)), op: op.clone() },
        Node::MapLiteral { location, values } => Node::MapLiteral { location: location.clone(), values: clone_pairs(values) },
        Node::Match { location, matchable, cases, default } => Node::Match { location: location.clone(), matchable: Box::new(clone_node(matchable)), cases: clone_cases(cases), default: Box::new(clone_node(default)) },
        Node::Native { name, fn_name } => Node::Native { name: name.clone(), fn_name: fn_name.clone() },
        Node::Instance { name, constructor, should_push } => Node::Instance { name: name.clone(), constructor: clone_nodes(constructor), should_push: *should_push },
        Node::Ret { location, value } => Node::Ret { location: location.clone(), value: Box::new(clone_node(value)) },
        Node::Null { location } => Node::Null { location: location.clone() },
        Node::Type { name, full_name, constructor, body, impls } => Node::Type { name: name.clone(), full_name: clone_opt_token(full_name), constructor: clone_tokens(constructor), body: Box::new(clone_node(body)), impls: clone_tokens(impls) },
        Node::Unit { name, full_name, body } => Node::Unit { name: name.clone(), full_name: clone_opt_token(full_name), body: Box::new(clone_node(body)) },
        Node::For { iterable, variable_name, body } => Node::For { iterable: Box::new(clone_node(iterable)), variable_name: variable_name.clone(), body: Box::new(clone_node(body)) },
        Node::Trait { name, full_name, functions } => Node::Trait { name: name.clone(), full_name: clone_opt_token(full_name), functions: clone_trait_fns(functions) },
        Node::ErrorPropagation { location, value, should_push } => Node::ErrorPropagation { location: location.clone(), value: Box::new(clone_node(value)), should_push: *should_push },
        Node::Impls { value, trait_name } => Node::Impls { value: Box::new(clone_node(value)), trait_name: trait_name.clone() },
        Node::Range { location, from, to } => Node::Range { location: location.clone(), from: Box::new(clone_node(from)), to: Box::new(clone_node(to)) },
    }
}

/// A copy of an optional boxed node.
pub fn clone_opt_node(n: &Option<Box<Node>>) -> (r: Option<Box<Node>>)
    ensures
        opt_node_view(r) == opt_node_view(*n),
    decreases n, 2int,
{
    match n {
        Some(b) => Some(Box::new(clone_node(b))),
        None => None,
    }
}

/// A copy of a list of nodes.
pub fn clone_nodes(v: &Vec<Node>) -> (r: Vec<Node>)
    ensures
        nodes_view(r@) == nodes_view(v@),
    decreases v, 2int,
{
    let mut r: Vec<Node> = Vec::new();
    let mut i: usize = 0;
    while i < v.len()
        invariant
            i <= v.len(),
            r@.len() == i,
            forall|j: int| 0 <= j < i ==> node_view(&r@[j]) == node_view(&v@[j]),
        decreases v.len() - i,
    {
        proof {
            assert(decreases_to!(v => v@[i as int]));
        }
        let c = clone_node(&v[i]);
        r.push(c);
        i = i + 1;
    }
    assert(nodes_view(r@) =~= nodes_view(v@));
    r
}

fn clone_pairs(v: &Vec<(Node, Node)>) -> (r: Vec<(Node, Node)>)
    ensures
        pairs_view(r@) == pairs_view(v@),
    decreases v, 2int,
{
    let mut r: Vec<(Node, Node)> = Vec::new();
    let mut i: usize = 0;
    while i < v.len()
        invariant
            i <= v.len(),
            r@.len() == i,
            forall|j: int| 0 <= j < i ==> node_view(&r@[j].0) == node_view(&v@[j].0) && node_view(&r@[j].1) == node_view(&v@[j].1),
        decreases v.len() - i,
    {
        proof {
            assert(decreases_to!(v => v@[i as int].0));
            assert(decreases_to!(v => v@[i as int].1));
        }
        let a = clone_node(&v[i].0);
        let b = clone_node(&v[i].1);
        r.push((a, b));
        i = i + 1;
    }
    assert(pairs_view(r@) =~= pairs_view(v@));
    r
}

fn clone_cases(v: &Vec<MatchCase>) -> (r: Vec<MatchCase>)
    ensures
        cases_view(r@) == cases_view(v@),
    decreases v, 2int,
{
    let mut r: Vec<MatchCase> = Vec::new();
    let mut i: usize = 0;
    while i < v.len()
        invariant
            i <= v.len(),
            r@.len() == i,
            forall|j: int| 0 <= j < i ==> node_view(&*r@[j].value) == node_view(&*v@[j].value) && node_view(&*r@[j].body) == node_view(&*v@[j].body),
        decreases v.len() - i,
    {
        proof {
            assert(decreases_to!(v => *v@[i as int].value));
            assert(decreases_to!(v => *v@[i as int].body));
        }
        let a = clone_node(&v[i].value);
        let b = clone_node(&v[i].body);
        r.push(MatchCase { value: Box::new(a), body: Box::new(b) });
        i = i + 1;
    }
    assert(cases_view(r@) =~= cases_view(v@));
    r
}

fn clone_trait_fns(v: &Vec<TraitNodeFn>) -> (r: Vec<TraitNodeFn>)
    ensures
        trait_fns_view(r@) == trait_fns_view(v@),
    decreases v, 2int,
{
    let mut r: Vec<TraitNodeFn> = Vec::new();
    let mut i: usize = 0;
    while i < v.len()
        invariant
            i <= v.len(),
            r@.len() == i,
            forall|j: int| 0 <= j < i ==> r@[j].name == v@[j].name && r@[j].params@ == v@[j].params@ && opt_node_view(r@[j].default) == opt_node_view(v@[j].default),
        decreases v.len() - i,
    {
        proof {
            assert(decreases_to!(v => v@[i as int].default));
        }
        let d = clone_opt_node(&v[i].default);
        r.push(TraitNodeFn { name: v[i].name.clone(), params: clone_tokens(&v[i].params), default: d });
        i = i + 1;
    }
    assert(trait_fns_view(r@) =~= trait_fns_view(v@));
    r
}

pub proof fn lemma_tokens_view_push(s: Seq<Token>, t: Token)
    ensures
        tokens_view(s.push(t)) == tokens_view(s).push(t@),
{
    assert(tokens_view(s.push(t)) =~= tokens_view(s).push(t@));
}

pub proof fn lemma_imports_view_push(s: Seq<Import>, t: Import)
    ensures
        imports_view(s.push(t)) == imports_view(s).push(t@),
{
    assert(imports_view(s.push(t)) =~= imports_view(s).push(t@));
}

pub proof fn lemma_nodes_view_push(s: Seq<Node>, n: Node)
    ensures
        nodes_view(s.push(n)) == nodes_view(s).push(n@),
{
    assert(nodes_view(s.push(n)) =~= nodes_view(s).push(n@));
}

pub proof fn lemma_pairs_view_push(s: Seq<(Node, Node)>, n: (Node, Node))
    ensures
        pairs_view(s.push(n)) == pairs_view(s).push((n.0@, n.1@)),
{
    assert(pairs_view(s.push(n)) =~= pairs_view(s).push((n.0@, n.1@)));
}

pub proof fn lemma_cases_view_push(s: Seq<MatchCase>, n: MatchCase)
    ensures
        cases_view(s.push(n)) == cases_view(s).push(MatchCaseView { value: Box::new(n.value@), body: Box::new(n.body@) }),
{
    assert(cases_view(s.push(n)) =~= cases_view(s).push(MatchCaseView { value: Box::new(n.value@), body: Box::new(n.body@) }));
}

pub proof fn lemma_trait_fns_view_push(s: Seq<TraitNodeFn>, n: TraitNodeFn)
    ensures
        trait_fns_view(s.push(n)) == trait_fns_view(s).push(TraitFnView { name: n.name@, params: tokens_view(n.params@), default: opt_node_view(n.default) }),
{
    assert(trait_fns_view(s.push(n)) =~= trait_fns_view(s).push(TraitFnView { name: n.name@, params: tokens_view(n.params@), default: opt_node_view(n.default) }));
}

} // verus!
