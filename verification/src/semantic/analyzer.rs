use vstd::prelude::*;
use std::collections::VecDeque;
use crate::errors::errors::{Error, ErrorView, error_of};
use crate::lexer::address::Address;
use crate::lexer::lexer::TokenView;
use crate::parser::import::ImportView;
use crate::parser::ast::{MatchCase, MatchCaseView, Node, NodeView, cases_view, nodes_view, opt_node_view, pairs_view};

verus! {

/// A construct the analyzer has entered and not yet left.
#[derive(Clone, Copy, Debug, PartialEq, Eq)]
pub enum AnalyzerNode {
    Block,
    If,
    Loop,
    For,
    Fn,
}

// ---------------------------------------------------------------------------
// What the analysis reports: the first misplaced construct, in the order in
// which the analyzer visits the tree.
// ---------------------------------------------------------------------------

/// Some enclosing construct is a loop.
pub open spec fn has_loop(st: Seq<AnalyzerNode>) -> bool {
    exists|i: int| 0 <= i < st.len() && st[i] == AnalyzerNode::Loop
}

/// Some enclosing construct is a function.
pub open spec fn has_fn(st: Seq<AnalyzerNode>) -> bool {
    exists|i: int| 0 <= i < st.len() && st[i] == AnalyzerNode::Fn
}

/// The first of two outcomes that holds an error.
pub open spec fn or_else(a: Option<ErrorView>, b: Option<ErrorView>) -> Option<ErrorView> {
    if a is Some { a } else { b }
}

/// `break` or `continue` outside every loop.
pub open spec fn jump_error(location: TokenView, st: Seq<AnalyzerNode>, text: Seq<char>) -> Option<ErrorView> {
    if has_loop(st) {
        None
    } else {
        Some(error_of(location.address, text, "remove this keyword"@))
    }
}

/// `return` at the top level, or inside blocks none of which is a function.
pub open spec fn return_error(location: TokenView, st: Seq<AnalyzerNode>) -> Option<ErrorView> {
    if st.len() == 0 {
        Some(error_of(location.address, "couldn't use return without loop."@, "remove this keyword"@))
    } else if !has_fn(st) {
        Some(error_of(location.address, "couldn't use break without loop."@, "remove this keyword"@))
    } else {
        None
    }
}

/// `import` anywhere but at the top level.
pub open spec fn import_error(location: TokenView, st: Seq<AnalyzerNode>) -> Option<ErrorView> {
    if st.len() > 0 {
        Some(error_of(location.address, "couldn't use import in any block."@, "you can use import only in main scope."@))
    } else {
        None
    }
}

/// `?` outside every function.
pub open spec fn propagation_error(location: TokenView, st: Seq<AnalyzerNode>) -> Option<ErrorView> {
    if !has_fn(st) {
        Some(error_of(location.address, "couldn't use error propagation outside fn."@, "you can use it only inside functions."@))
    } else {
        None
    }
}

/// The first error in a node, analysed inside the constructs `st`.
pub open spec fn analysis_error(n: NodeView, st: Seq<AnalyzerNode>) -> Option<ErrorView>
    decreases n, 0int,
{
    match n {
        NodeView::Block { body } => nodes_error(body, st, 0),
        NodeView::If { logical, body, elseif, .. } => or_else(
            analysis_error(*logical, st.push(AnalyzerNode::If)),
            or_else(
                analysis_error(*body, st.push(AnalyzerNode::If)),
                match elseif {
                    Some(e) => analysis_error(*e, st),
                    None => None,
                },
            ),
        ),
        NodeView::While { logical, body, .. } => or_else(
            analysis_error(*logical, st.push(AnalyzerNode::Loop)),
            analysis_error(*body, st.push(AnalyzerNode::Loop)),
        ),
        NodeView::For { iterable, body, .. } => or_else(
            analysis_error(*iterable, st.push(AnalyzerNode::Loop)),
            analysis_error(*body, st.push(AnalyzerNode::Loop)),
        ),
        NodeView::FnDeclaration { body, .. } => analysis_error(*body, st.push(AnalyzerNode::Fn)),
        NodeView::AnFnDeclaration { body, .. } => analysis_error(*body, st.push(AnalyzerNode::Fn)),
        NodeView::Break { location } => jump_error(location, st, "couldn't use break without loop."@),
        NodeView::Continue { location } => jump_error(location, st, "couldn't use continue without loop."@),
        NodeView::List { values, .. } => nodes_error(values, st, 0),
        NodeView::MapLiteral { values, .. } => pairs_error(values, st, 0),
        NodeView::Match { cases, default, .. } => or_else(analysis_error(*default, st), cases_error(cases, st, 0)),
        NodeView::Ret { location, .. } => return_error(location, st),
        NodeView::Type { body, .. } => analysis_error(*body, st),
        NodeView::Unit { body, .. } => analysis_error(*body, st),
        NodeView::Import { location, .. } => import_error(location, st),
        NodeView::ErrorPropagation { location, .. } => propagation_error(location, st),
        NodeView::Call { args, .. } => nodes_error(args, st, 0),
        NodeView::Define { value, .. } => analysis_error(*value, st),
        NodeView::Unary { value, .. } => analysis_error(*value, st),
        NodeView::Bin { left, right, .. } => or_else(analysis_error(*left, st), analysis_error(*right, st)),
        NodeView::Instance { constructor, .. } => nodes_error(constructor, st, 0),
        NodeView::Assign { value, .. } => analysis_error(*value, st),
        NodeView::Cond { left, right, .. } => or_else(analysis_error(*left, st), analysis_error(*right, st)),
        NodeView::Logical { left, right, .. } => or_else(analysis_error(*left, st), analysis_error(*right, st)),
        NodeView::Range { from, to, .. } => or_else(analysis_error(*from, st), analysis_error(*to, st)),
        NodeView::Impls { value, .. } => analysis_error(*value, st),
        _ => None,
    }
}

/// The first error in the nodes of `s` from index `i` on.
pub open spec fn nodes_error(s: Seq<NodeView>, st: Seq<AnalyzerNode>, i: int) -> Option<ErrorView>
    decreases s, s.len() - i,
{
    if 0 <= i < s.len() {
        or_else(analysis_error(s[i], st), nodes_error(s, st, i + 1))
    } else {
        None
    }
}

/// The first error in the key-value pairs of `s` from index `i` on, key first.
pub open spec fn pairs_error(s: Seq<(NodeView, NodeView)>, st: Seq<AnalyzerNode>, i: int) -> Option<ErrorView>
    decreases s, s.len() - i,
{
    if 0 <= i < s.len() {
        or_else(analysis_error(s[i].0, st), or_else(analysis_error(s[i].1, st), pairs_error(s, st, i + 1)))
    } else {
        None
    }
}

/// The first error in the bodies of the match cases of `s` from index `i` on.
pub open spec fn cases_error(s: Seq<MatchCaseView>, st: Seq<AnalyzerNode>, i: int) -> Option<ErrorView>
    decreases s, s.len() - i,
{
    if 0 <= i < s.len() {
        or_else(analysis_error(*s[i].body, st), cases_error(s, st, i + 1))
    } else {
        None
    }
}

/// The outcome of an `if`: its condition and body inside the `if`, then
/// the `elif`/`else` chain outside it.
pub open spec fn if_error(logical: NodeView, body: NodeView, elseif: Option<Box<NodeView>>, st: Seq<AnalyzerNode>) -> Option<ErrorView> {
    or_else(
        analysis_error(logical, st.push(AnalyzerNode::If)),
        or_else(
            analysis_error(body, st.push(AnalyzerNode::If)),
            match elseif {
                Some(e) => analysis_error(*e, st),
                None => None,
            },
        ),
    )
}

/// The outcome of a loop: its head and body inside the loop.
pub open spec fn loop_error(head: NodeView, body: NodeView, st: Seq<AnalyzerNode>) -> Option<ErrorView> {
    or_else(analysis_error(head, st.push(AnalyzerNode::Loop)), analysis_error(body, st.push(AnalyzerNode::Loop)))
}

/// The outcome of a `match`: the default body, then each case body.
pub open spec fn match_error(cases: Seq<MatchCaseView>, default: NodeView, st: Seq<AnalyzerNode>) -> Option<ErrorView> {
    or_else(analysis_error(default, st), cases_error(cases, st, 0))
}

/// The error a fallible step reported, if any.
pub open spec fn outcome(r: Result<(), Error>) -> Option<ErrorView> {
    match r {
        Ok(_) => None,
        Err(e) => Some(e@),
    }
}

/// `break` and `continue` are accepted exactly where some enclosing
/// construct is a loop.
pub proof fn law_jumps_need_a_loop(location: TokenView, st: Seq<AnalyzerNode>)
    ensures
        analysis_error(NodeView::Break { location }, st) is None <==> has_loop(st),
        analysis_error(NodeView::Continue { location }, st) is None <==> has_loop(st),
{
}

/// The body of a loop is analysed inside the loop: `break` and `continue`
/// standing directly in the body of a `while` or a `for` are accepted,
/// whatever encloses the loop, when its condition or iterable is.
pub proof fn law_loop_bodies_allow_jumps(
    st: Seq<AnalyzerNode>,
    head: NodeView,
    location: TokenView,
    jump: TokenView,
    variable_name: TokenView,
)
    requires
        analysis_error(head, st.push(AnalyzerNode::Loop)) is None,
    ensures
        analysis_error(NodeView::While { location, logical: Box::new(head), body: Box::new(NodeView::Break { location: jump }) }, st) is None,
        analysis_error(NodeView::While { location, logical: Box::new(head), body: Box::new(NodeView::Continue { location: jump }) }, st) is None,
        analysis_error(NodeView::For { iterable: Box::new(head), variable_name, body: Box::new(NodeView::Break { location: jump }) }, st) is None,
        analysis_error(NodeView::For { iterable: Box::new(head), variable_name, body: Box::new(NodeView::Continue { location: jump }) }, st) is None,
{
    let inner = st.push(AnalyzerNode::Loop);
    assert(inner[inner.len() - 1] == AnalyzerNode::Loop);
    assert(has_loop(inner));
    assert(analysis_error(NodeView::Break { location: jump }, inner) is None);
    assert(analysis_error(NodeView::Continue { location: jump }, inner) is None);
}

/// `return` and `?` are accepted exactly where some enclosing construct is
/// a function.
pub proof fn law_returns_need_a_fn(location: TokenView, value: NodeView, should_push: bool, st: Seq<AnalyzerNode>)
    ensures
        analysis_error(NodeView::Ret { location, value: Box::new(value) }, st) is None <==> has_fn(st),
        analysis_error(NodeView::ErrorPropagation { location, value: Box::new(value), should_push }, st) is None <==> has_fn(st),
{
    if st.len() == 0 {
        assert(!has_fn(st));
    }
}

/// `import` is accepted exactly at the top level.
pub proof fn law_imports_at_top_level(location: TokenView, imports: Seq<ImportView>, st: Seq<AnalyzerNode>)
    ensures
        analysis_error(NodeView::Import { location, imports }, st) is None <==> st.len() == 0,
{
}

// ---------------------------------------------------------------------------
// How deep the analysis descends; it bounds the recursion of the analyzer.
// ---------------------------------------------------------------------------

pub open spec fn max_nat(a: nat, b: nat) -> nat {
    if a >= b { a } else { b }
}

/// The height of the part of a node that the analyzer visits.
pub open spec fn depth(n: NodeView) -> nat
    decreases n, 0int,
{
    match n {
        NodeView::Block { body } => 1 + nodes_depth(body, body.len() as int),
        NodeView::If { logical, body, elseif, .. } => 1 + max_nat(
            depth(*logical),
            max_nat(
                depth(*body),
                match elseif {
                    Some(e) => depth(*e),
                    None => 0,
                },
            ),
        ),
        NodeView::While { logical, body, .. } => 1 + max_nat(depth(*logical), depth(*body)),
        NodeView::For { iterable, body, .. } => 1 + max_nat(depth(*iterable), depth(*body)),
        NodeView::FnDeclaration { body, .. } => 1 + depth(*body),
        NodeView::AnFnDeclaration { body, .. } => 1 + depth(*body),
        NodeView::List { values, .. } => 1 + nodes_depth(values, values.len() as int),
        NodeView::MapLiteral { values, .. } => 1 + pairs_depth(values, values.len() as int),
        NodeView::Match { cases, default, .. } => 1 + max_nat(depth(*default), cases_depth(cases, cases.len() as int)),
        NodeView::Type { body, .. } => 1 + depth(*body),
        NodeView::Unit { body, .. } => 1 + depth(*body),
        NodeView::Call { args, .. } => 1 + nodes_depth(args, args.len() as int),
        NodeView::Define { value, .. } => 1 + depth(*value),
        NodeView::Unary { value, .. } => 1 + depth(*value),
        NodeView::Bin { left, right, .. } => 1 + max_nat(depth(*left), depth(*right)),
        NodeView::Instance { constructor, .. } => 1 + nodes_depth(constructor, constructor.len() as int),
        NodeView::Assign { value, .. } => 1 + depth(*value),
        NodeView::Cond { left, right, .. } => 1 + max_nat(depth(*left), depth(*right)),
        NodeView::Logical { left, right, .. } => 1 + max_nat(depth(*left), depth(*right)),
        NodeView::Range { from, to, .. } => 1 + max_nat(depth(*from), depth(*to)),
        NodeView::Impls { value, .. } => 1 + depth(*value),
        _ => 0,
    }
}

/// The greatest depth among the first `k` nodes of `s`.
pub open spec fn nodes_depth(s: Seq<NodeView>, k: int) -> nat
    decreases s, k,
{
    if 0 < k <= s.len() {
        max_nat(depth(s[k - 1]), nodes_depth(s, k - 1))
    } else {
        0
    }
}

/// The greatest depth among the keys and values of the first `k` pairs of `s`.
pub open spec fn pairs_depth(s: Seq<(NodeView, NodeView)>, k: int) -> nat
    decreases s, k,
{
    if 0 < k <= s.len() {
        max_nat(max_nat(depth(s[k - 1].0), depth(s[k - 1].1)), pairs_depth(s, k - 1))
    } else {
        0
    }
}

/// The greatest depth among the bodies of the first `k` cases of `s`.
pub open spec fn cases_depth(s: Seq<MatchCaseView>, k: int) -> nat
    decreases s, k,
{
    if 0 < k <= s.len() {
        max_nat(depth(*s[k - 1].body), cases_depth(s, k - 1))
    } else {
        0
    }
}

proof fn lemma_nodes_depth(s: Seq<NodeView>, k: int, i: int)
    requires
        0 <= i < k <= s.len(),
    ensures
        depth(s[i]) <= nodes_depth(s, k),
    decreases k,
{
    if i < k - 1 {
        lemma_nodes_depth(s, k - 1, i);
    }
}

proof fn lemma_pairs_depth(s: Seq<(NodeView, NodeView)>, k: int, i: int)
    requires
        0 <= i < k <= s.len(),
    ensures
        depth(s[i].0) <= pairs_depth(s, k),
        depth(s[i].1) <= pairs_depth(s, k),
    decreases k,
{
    if i < k - 1 {
        lemma_pairs_depth(s, k - 1, i);
    }
}

proof fn lemma_cases_depth(s: Seq<MatchCaseView>, k: int, i: int)
    requires
        0 <= i < k <= s.len(),
    ensures
        depth(*s[i].body) <= cases_depth(s, k),
    decreases k,
{
    if i < k - 1 {
        lemma_cases_depth(s, k - 1, i);
    }
}

// ---------------------------------------------------------------------------
// The analyzer.
// ---------------------------------------------------------------------------

/// Checks that `break`, `continue`, `return`, `import` and `?` stand where
/// they may, tracking the constructs it has entered on a stack.
pub struct Analyzer {
    analyze_stack: VecDeque<AnalyzerNode>,
}

impl Analyzer {
    /// The constructs entered, outermost first.
    pub closed spec fn stack(&self) -> Seq<AnalyzerNode> {
        self.analyze_stack@
    }

    /// An analyzer at the top level.
    pub fn new() -> (r: Self)
        ensures
            r.stack() == Seq::<AnalyzerNode>::empty(),
    {
        Analyzer { analyze_stack: VecDeque::new() }
    }

    /// Analyzes a node and hands it back, or reports the first misplaced
    /// construct in it.
    #[verifier::spinoff_prover]
    #[verifier::rlimit(60)]
    pub fn analyze<'node>(&mut self, node: &'node Node) -> (r: Result<&'node Node, Error>)
        ensures
            final(self).stack() == old(self).stack(),
            match r {
                Ok(n) => n == node && analysis_error(node@, old(self).stack()) is None,
                Err(e) => analysis_error(node@, old(self).stack()) == Some(e@),
            },
        decreases depth(node@), 1int,
    {
        match node {
            Node::Block { body } => {
                self.analyze_nodes(body)?;
            },
            Node::If { logical, body, elseif, .. } => {
                self.analyze_if(body, logical, elseif)?;
            },
            Node::While { logical, body, .. } => {
                self.analyze_while(body, logical)?;
            },
            Node::For { iterable, body, .. } => {
                self.analyze_for(body, iterable)?;
            },
            Node::FnDeclaration { body, .. } => {
                self.analyze_fn(body)?;
            },
            Node::Break { location } => {
                self.analyze_break(&location.address)?;
            },
            Node::Continue { location } => {
                self.analyze_continue(&location.address)?;
            },
            Node::List { values, .. } => {
                self.analyze_nodes(values)?;
            },
            Node::MapLiteral { values, .. } => {
                self.analyze_pairs(values)?;
            },
            Node::Match { cases, default, .. } => {
                self.analyze_match(cases, default)?;
            },
            Node::Ret { location, .. } => {
                self.analyze_return(&location.address)?;
            },
            Node::Type { body, .. } => {
                self.analyze(body)?;
            },
            Node::Unit { body, .. } => {
                self.analyze(body)?;
            },
            Node::Import { location, .. } => {
                self.analyze_import(&location.address)?;
            },
            Node::ErrorPropagation { location, .. } => {
                self.analyze_error_propagation(&location.address)?;
            },
            Node::Call { args, .. } => {
                self.analyze_nodes(args)?;
            },
            Node::Define { value, .. } => {
                self.analyze(value)?;
            },
            Node::Unary { value, .. } => {
                self.analyze(value)?;
            },
            Node::Bin { left, right, .. } => {
                self.analyze(left)?;
                self.analyze(right)?;
            },
            Node::Instance { constructor, .. } => {
                self.analyze_nodes(constructor)?;
            },
            Node::Assign { value, .. } => {
                self.analyze(value)?;
            },
            Node::AnFnDeclaration { body, .. } => {
                self.analyze_fn(body)?;
            },
            Node::Cond { left, right, .. } => {
                self.analyze(left)?;
                self.analyze(right)?;
            },
            Node::Logical { left, right, .. } => {
                self.analyze(left)?;
                self.analyze(right)?;
            },
            Node::Range { from, to, .. } => {
                self.analyze(from)?;
                self.analyze(to)?;
            },
            Node::Impls { value, .. } => {
                self.analyze(value)?;
            },
            _ => {},
        }
        Ok(node)
    }

    /// Analyzes the nodes of `v` in order.
    fn analyze_nodes(&mut self, v: &Vec<Node>) -> (r: Result<(), Error>)
        ensures
            final(self).stack() == old(self).stack(),
            outcome(r) == nodes_error(nodes_view(v@), old(self).stack(), 0),
        decreases nodes_depth(nodes_view(v@), v@.len() as int), 2int,
    {
        let ghost sv = nodes_view(v@);
        let ghost st = self.stack();
        let mut i: usize = 0;
        while i < v.len()
            invariant
                i <= v@.len(),
                sv == nodes_view(v@),
                self.stack() == st,
                st == old(self).stack(),
                nodes_error(sv, st, 0) == nodes_error(sv, st, i as int),
            decreases v@.len() - i,
        {
            proof {
                lemma_nodes_depth(sv, sv.len() as int, i as int);
            }
            self.analyze(&v[i])?;
            i = i + 1;
        }
        Ok(())
    }

    /// Analyzes the key, then the value, of each pair of `v` in order.
    fn analyze_pairs(&mut self, v: &Vec<(Node, Node)>) -> (r: Result<(), Error>)
        ensures
            final(self).stack() == old(self).stack(),
            outcome(r) == pairs_error(pairs_view(v@), old(self).stack(), 0),
        decreases pairs_depth(pairs_view(v@), v@.len() as int), 2int,
    {
        let ghost sv = pairs_view(v@);
        let ghost st = self.stack();
        let mut i: usize = 0;
        while i < v.len()
            invariant
                i <= v@.len(),
                sv == pairs_view(v@),
                self.stack() == st,
                st == old(self).stack(),
                pairs_error(sv, st, 0) == pairs_error(sv, st, i as int),
            decreases v@.len() - i,
        {
            proof {
                lemma_pairs_depth(sv, sv.len() as int, i as int);
            }
            self.analyze(&v[i].0)?;
            self.analyze(&v[i].1)?;
            i = i + 1;
        }
        Ok(())
    }

    /// Whether some enclosing construct is a loop, looking from the innermost.
    fn hierarchy_has_loop(&self) -> (r: bool)
        ensures
            r == has_loop(self.stack()),
    {
        let mut i: usize = self.analyze_stack.len();
        while i > 0
            invariant
                i <= self.analyze_stack@.len(),
                forall|j: int| i <= j < self.analyze_stack@.len() ==> self.analyze_stack@[j] != AnalyzerNode::Loop,
            decreases i,
        {
            i = i - 1;
            if let AnalyzerNode::Loop = self.analyze_stack[i] {
                return true;
            }
        }
        false
    }

    /// Whether some enclosing construct is a function.
    fn hierarchy_has_fn(&self) -> (r: bool)
        ensures
            r == has_fn(self.stack()),
    {
        let mut i: usize = 0;
        while i < self.analyze_stack.len()
            invariant
                i <= self.analyze_stack@.len(),
                forall|j: int| 0 <= j < i ==> self.analyze_stack@[j] != AnalyzerNode::Fn,
            decreases self.analyze_stack@.len() - i,
        {
            if let AnalyzerNode::Fn = self.analyze_stack[i] {
                return true;
            }
            i = i + 1;
        }
        false
    }

    /// An `if`: condition and body inside it, then the `elif`/`else` chain.
    pub fn analyze_if(&mut self, body: &Node, logical: &Node, elseif: &Option<Box<Node>>) -> (r: Result<(), Error>)
        ensures
            final(self).stack() == old(self).stack(),
            outcome(r) == if_error(logical@, body@, opt_node_view(*elseif), old(self).stack()),
        decreases max_nat(depth(logical@), max_nat(depth(body@), match opt_node_view(*elseif) { Some(e) => depth(*e), None => 0 })), 2int,
    {
        let ghost st = self.stack();
        self.analyze_stack.push_back(AnalyzerNode::If);
        let inner = match self.analyze(logical) {
            Ok(_) => match self.analyze(body) {
                Ok(_) => Ok(()),
                Err(e) => Err(e),
            },
            Err(e) => Err(e),
        };
        self.analyze_stack.pop_back();
        proof {
            assert(self.stack() =~= st);
        }
        inner?;
        if let Some(else_node) = elseif {
            self.analyze(else_node)?;
        }
        Ok(())
    }

    /// A `match`: the default body, then the body of each case.
    pub fn analyze_match(&mut self, cases: &Vec<MatchCase>, default: &Node) -> (r: Result<(), Error>)
        ensures
            final(self).stack() == old(self).stack(),
            outcome(r) == match_error(cases_view(cases@), default@, old(self).stack()),
        decreases max_nat(depth(default@), cases_depth(cases_view(cases@), cases@.len() as int)), 2int,
    {
        self.analyze(default)?;
        let ghost sv = cases_view(cases@);
        let ghost st = self.stack();
        let mut i: usize = 0;
        while i < cases.len()
            invariant
                i <= cases@.len(),
                sv == cases_view(cases@),
                self.stack() == st,
                st == old(self).stack(),
                cases_error(sv, st, 0) == cases_error(sv, st, i as int),
                analysis_error(default@, st) is None,
            decreases cases@.len() - i,
        {
            proof {
                lemma_cases_depth(sv, sv.len() as int, i as int);
            }
            self.analyze(&*cases[i].body)?;
            i = i + 1;
        }
        Ok(())
    }

    /// A `while`: condition and body inside a loop.
    fn analyze_while(&mut self, body: &Node, logical: &Node) -> (r: Result<(), Error>)
        ensures
            final(self).stack() == old(self).stack(),
            outcome(r) == loop_error(logical@, body@, old(self).stack()),
        decreases max_nat(depth(logical@), depth(body@)), 2int,
    {
        let ghost st = self.stack();
        self.analyze_stack.push_back(AnalyzerNode::Loop);
        let inner = match self.analyze(logical) {
            Ok(_) => match self.analyze(body) {
                Ok(_) => Ok(()),
                Err(e) => Err(e),
            },
            Err(e) => Err(e),
        };
        self.analyze_stack.pop_back();
        proof {
            assert(self.stack() =~= st);
        }
        inner
    }

    /// A `for`: the iterable and the body inside a loop.
    pub fn analyze_for(&mut self, body: &Node, iterable: &Node) -> (r: Result<(), Error>)
        ensures
            final(self).stack() == old(self).stack(),
            outcome(r) == loop_error(iterable@, body@, old(self).stack()),
        decreases max_nat(depth(iterable@), depth(body@)), 2int,
    {
        let ghost st = self.stack();
        self.analyze_stack.push_back(AnalyzerNode::Loop);
        let inner = match self.analyze(iterable) {
            Ok(_) => match self.analyze(body) {
                Ok(_) => Ok(()),
                Err(e) => Err(e),
            },
            Err(e) => Err(e),
        };
        self.analyze_stack.pop_back();
        proof {
            assert(self.stack() =~= st);
        }
        inner
    }

    /// `continue`: an error outside every loop.
    fn analyze_continue(&mut self, addr: &Address) -> (r: Result<(), Error>)
        ensures
            final(self).stack() == old(self).stack(),
            match r {
                Ok(_) => has_loop(old(self).stack()),
                Err(e) => !has_loop(old(self).stack()) && e@ == error_of(*addr, "couldn't use continue without loop."@, "remove this keyword"@),
            },
    {
        if self.analyze_stack.len() == 0 {
            return Err(Error::new(addr.clone(), "couldn't use continue without loop.", "remove this keyword"));
        }
        if !self.hierarchy_has_loop() {
            return Err(Error::new(addr.clone(), "couldn't use continue without loop.", "remove this keyword"));
        }
        Ok(())
    }

    /// `break`: an error outside every loop.
    fn analyze_break(&mut self, addr: &Address) -> (r: Result<(), Error>)
        ensures
            final(self).stack() == old(self).stack(),
            match r {
                Ok(_) => has_loop(old(self).stack()),
                Err(e) => !has_loop(old(self).stack()) && e@ == error_of(*addr, "couldn't use break without loop."@, "remove this keyword"@),
            },
    {
        if self.analyze_stack.len() == 0 {
            return Err(Error::new(addr.clone(), "couldn't use break without loop.", "remove this keyword"));
        }
        if !self.hierarchy_has_loop() {
            return Err(Error::new(addr.clone(), "couldn't use break without loop.", "remove this keyword"));
        }
        Ok(())
    }

    /// A function body, inside a function.
    fn analyze_fn(&mut self, body: &Node) -> (r: Result<(), Error>)
        ensures
            final(self).stack() == old(self).stack(),
            outcome(r) == analysis_error(body@, old(self).stack().push(AnalyzerNode::Fn)),
        decreases depth(body@), 2int,
    {
        let ghost st = self.stack();
        self.analyze_stack.push_back(AnalyzerNode::Fn);
        let inner = match self.analyze(body) {
            Ok(_) => Ok(()),
            Err(e) => Err(e),
        };
        self.analyze_stack.pop_back();
        proof {
            assert(self.stack() =~= st);
        }
        inner
    }

    /// `return`: an error at the top level or outside every function.
    fn analyze_return(&mut self, addr: &Address) -> (r: Result<(), Error>)
        ensures
            final(self).stack() == old(self).stack(),
            match r {
                Ok(_) => old(self).stack().len() > 0 && has_fn(old(self).stack()),
                Err(e) => if old(self).stack().len() == 0 {
                    e@ == error_of(*addr, "couldn't use return without loop."@, "remove this keyword"@)
                } else {
                    !has_fn(old(self).stack()) && e@ == error_of(*addr, "couldn't use break without loop."@, "remove this keyword"@)
                },
            },
    {
        if self.analyze_stack.len() == 0 {
            return Err(Error::new(addr.clone(), "couldn't use return without loop.", "remove this keyword"));
        }
        if !self.hierarchy_has_fn() {
            return Err(Error::new(addr.clone(), "couldn't use break without loop.", "remove this keyword"));
        }
        Ok(())
    }

    /// `import`: an error anywhere but at the top level.
    fn analyze_import(&self, addr: &Address) -> (r: Result<(), Error>)
        ensures
            match r {
                Ok(_) => self.stack().len() == 0,
                Err(e) => self.stack().len() > 0 && e@ == error_of(*addr, "couldn't use import in any block."@, "you can use import only in main scope."@),
            },
    {
        if self.analyze_stack.len() > 0 {
            return Err(Error::new(addr.clone(), "couldn't use import in any block.", "you can use import only in main scope."));
        }
        Ok(())
    }

    /// `?`: an error outside every function.
    fn analyze_error_propagation(&self, addr: &Address) -> (r: Result<(), Error>)
        ensures
            match r {
                Ok(_) => has_fn(self.stack()),
                Err(e) => !has_fn(self.stack()) && e@ == error_of(*addr, "couldn't use error propagation outside fn."@, "you can use it only inside functions."@),
            },
    {
        if !self.hierarchy_has_fn() {
            return Err(Error::new(addr.clone(), "couldn't use error propagation outside fn.", "you can use it only inside functions."));
        }
        Ok(())
    }
}

} // verus!
