use vstd::prelude::*;
use vstd::string::*;
use crate::errors::errors::{Error, ErrorView};
use crate::lexer::lexer::{Token, TokenKind};
use crate::parser::ast::{opt_node_view, lemma_cases_view_push, lemma_nodes_view_push, lemma_trait_fns_view_push, cases_view, trait_fns_view, MatchCase, MatchCaseView, Node, NodeView, TraitFnView, TraitNodeFn, nodes_view};
use crate::parser::import::{Import};
use crate::text::{debug_str, debug_text, string_of};
use crate::parser::grammar::{kind_debug, sp_block_items, sp_block, sp_statement, sp_member_items, sp_type_stmt, sp_unit_stmt, sp_if_tail, sp_if_stmt, sp_elif_stmt, sp_else_stmt, sp_access_stmt, sp_error_propagation, sp_access, sp_expr, sp_return_stmt, sp_function_stmt, sp_braced_block, sp_for_stmt, sp_while_stmt, sp_case_body_stmt, sp_match_stmt_cases, sp_match_stmt, sp_trait_items, sp_trait_stmt, node_out, nodes_out};
use crate::parser::parser::{Parser, kind_name};

verus! {

impl Parser {
    /// Statements up to a closing brace or the end of the tokens.
    #[verifier::spinoff_prover]
    pub(super) fn block(&mut self) -> (r: Result<Node, Error>)
        requires
            old(self).inv(),
        ensures
            final(self).inv(),
            final(self).ctx() == old(self).ctx(),
            old(self).pos() <= final(self).pos(),
            sp_block(old(self).ctx(), old(self).pos()) == node_out(r, final(self).pos()),
        decreases old(self).ctx().toks.len() - old(self).pos(), 100int,
    {
        proof {
            reveal_with_fuel(sp_block, 1);
            reveal_with_fuel(sp_block_items, 1);
        }
        let ghost c = self.ctx();
        let ghost p0 = self.pos();
        let mut nodes: Vec<Node> = Vec::new();
        proof {
            assert(nodes_view(nodes@) =~= Seq::<NodeView>::empty());
        }
        let mut failed: Option<Error> = None;
        loop
            invariant_except_break
                sp_block_items(c, self.pos(), nodes_view(nodes@)) == sp_block(c, p0),
                failed is None,
            invariant
                self.inv(),
                self.ctx() == c,
                c == old(self).ctx(),
                self.pos() >= p0,
                p0 == old(self).pos(),
            ensures
                match failed {
                    Some(e) => sp_block(c, p0) == Err::<(NodeView, int), ErrorView>(e@),
                    None => sp_block(c, p0) == Ok::<(NodeView, int), ErrorView>((NodeView::Block { body: nodes_view(nodes@) }, self.pos())),
                },
            decreases self.ctx().toks.len() - self.pos(),
        {
            proof {
                reveal_with_fuel(sp_block_items, 1);
                reveal_with_fuel(sp_statement, 1);
            }
            if self.is_at_end() || self.check(TokenKind::Rbrace) {
                break;
            }
            match self.statement() {
                Ok(n) => {
                    proof {
                        lemma_nodes_view_push(nodes@, n);
                    }
                    nodes.push(n);
                },
                Err(e) => {
                    failed = Some(e);
                    break;
                },
            }
        }
        proof {
            reveal_with_fuel(sp_block, 1);
            reveal_with_fuel(sp_block_items, 1);
            reveal_with_fuel(sp_statement, 1);
        }
        if let Some(e) = failed {
            return Err(e);
        }
        Ok(Node::Block { body: nodes })
    }

    /// The statements of a type or unit body; `what` names which in errors.
    #[verifier::spinoff_prover]
    pub(super) fn member_items(&mut self, what: &str) -> (r: Result<Vec<Node>, Error>)
        requires
            old(self).inv(),
        ensures
            final(self).inv(),
            final(self).ctx() == old(self).ctx(),
            old(self).pos() <= final(self).pos(),
            sp_member_items(old(self).ctx(), old(self).pos(), Seq::empty(), what@) == nodes_out(r, final(self).pos()),
        decreases old(self).ctx().toks.len() - old(self).pos(), 99int,
    {
        proof {
            reveal_with_fuel(sp_member_items, 1);
            reveal_with_fuel(sp_statement, 1);
        }
        let ghost c = self.ctx();
        let ghost p0 = self.pos();
        let mut nodes: Vec<Node> = Vec::new();
        proof {
            assert(nodes_view(nodes@) =~= Seq::<NodeView>::empty());
        }
        let mut failed: Option<Error> = None;
        loop
            invariant_except_break
                sp_member_items(c, self.pos(), nodes_view(nodes@), what@) == sp_member_items(c, p0, Seq::empty(), what@),
                failed is None,
            invariant
                self.inv(),
                self.ctx() == c,
                c == old(self).ctx(),
                self.pos() >= p0,
                p0 == old(self).pos(),
            ensures
                match failed {
                    Some(e) => sp_member_items(c, p0, Seq::empty(), what@) == Err::<(Seq<NodeView>, int), ErrorView>(e@),
                    None => sp_member_items(c, p0, Seq::empty(), what@) == Ok::<(Seq<NodeView>, int), ErrorView>((nodes_view(nodes@), self.pos())),
                },
            decreases self.ctx().toks.len() - self.pos(),
        {
            proof {
                reveal_with_fuel(sp_member_items, 1);
                reveal_with_fuel(sp_statement, 1);
            }
            if self.is_at_end() || self.check(TokenKind::Rbrace) {
                break;
            }
            let location = self.tokens[self.current].clone();
            let node = match self.statement() {
                Ok(n) => n,
                Err(e) => {
                    failed = Some(e);
                    break;
                },
            };
            let member = match node {
                Node::FnDeclaration { name, params, body, .. } => Node::FnDeclaration { name, full_name: None, params, body, make_closure: false },
                Node::Native { .. } | Node::Get { .. } | Node::Define { .. } | Node::Assign { .. } => node,
                _ => {
                    let mut text = string_of("invalid node for ");
                    text.append(what);
                    text.append(": ");
                    text.append(kind_name(location.tk_type));
                    text.append(":");
                    let quoted = debug_text(location.value.as_str());
                    text.append(quoted.as_str());
                    proof {
                        assert(text@ =~= "invalid node for "@ + what@ + ": "@ + kind_debug(location@.tk_type) + ":"@ + debug_str(location@.value));
                    }
                    failed = Some(Error::own_text(location.address, text, "check your code."));
                    break;
                },
            };
            proof {
                lemma_nodes_view_push(nodes@, member);
            }
            nodes.push(member);
        }
        proof {
            reveal_with_fuel(sp_member_items, 1);
            reveal_with_fuel(sp_statement, 1);
        }
        if let Some(e) = failed {
            return Err(e);
        }
        Ok(nodes)
    }

    /// `type Name(fields) impl Traits { members }`
    #[verifier::spinoff_prover]
    pub(super) fn type_stmt(&mut self) -> (r: Result<Node, Error>)
        requires
            old(self).inv(),
        ensures
            final(self).inv(),
            final(self).ctx() == old(self).ctx(),
            old(self).pos() <= final(self).pos(),
            sp_type_stmt(old(self).ctx(), old(self).pos()) == node_out(r, final(self).pos()),
            r is Ok ==> old(self).pos() < final(self).pos(),
        decreases old(self).ctx().toks.len() - old(self).pos(), 90int,
    {
        proof {
            reveal_with_fuel(sp_type_stmt, 1);
            reveal_with_fuel(sp_member_items, 1);
        }
        self.consume(TokenKind::Type)?;
        let name = self.consume(TokenKind::Id)?;
        let constructor = self.opt_params()?;
        let impls = self.type_impls()?;
        self.consume(TokenKind::Lbrace)?;
        let body = self.member_items("type")?;
        self.consume(TokenKind::Rbrace)?;
        let full_name = self.to_full_name(name.clone());
        let ghost bv = nodes_view(body@);
        let block = Node::Block { body };
        proof {
            assert(block@ == NodeView::Block { body: bv });
        }
        Ok(Node::Type { name, full_name: Some(full_name), constructor, body: Box::new(block), impls })
    }

    /// `unit Name { members }`
    #[verifier::spinoff_prover]
    pub(super) fn unit_stmt(&mut self) -> (r: Result<Node, Error>)
        requires
            old(self).inv(),
        ensures
            final(self).inv(),
            final(self).ctx() == old(self).ctx(),
            old(self).pos() <= final(self).pos(),
            sp_unit_stmt(old(self).ctx(), old(self).pos()) == node_out(r, final(self).pos()),
            r is Ok ==> old(self).pos() < final(self).pos(),
        decreases old(self).ctx().toks.len() - old(self).pos(), 90int,
    {
        proof {
            reveal_with_fuel(sp_unit_stmt, 1);
            reveal_with_fuel(sp_member_items, 1);
        }
        self.consume(TokenKind::Unit)?;
        let name = self.consume(TokenKind::Id)?;
        self.consume(TokenKind::Lbrace)?;
        let body = self.member_items("unit")?;
        self.consume(TokenKind::Rbrace)?;
        let full_name = self.to_full_name(name.clone());
        let ghost bv = nodes_view(body@);
        let block = Node::Block { body };
        proof {
            assert(block@ == NodeView::Block { body: bv });
        }
        Ok(Node::Unit { name, full_name: Some(full_name), body: Box::new(block) })
    }

    /// The braced body after a condition, then an `elif` or `else` when one follows.
    #[verifier::spinoff_prover]
    pub(super) fn if_tail(&mut self, location: Token, logical: Node) -> (r: Result<Node, Error>)
        requires
            old(self).inv(),
        ensures
            final(self).inv(),
            final(self).ctx() == old(self).ctx(),
            old(self).pos() <= final(self).pos(),
            sp_if_tail(old(self).ctx(), old(self).pos(), location@, logical@) == node_out(r, final(self).pos()),
        decreases old(self).ctx().toks.len() - old(self).pos(), 91int,
    {
        proof {
            reveal_with_fuel(sp_if_tail, 1);
            reveal_with_fuel(sp_block, 1);
            reveal_with_fuel(sp_elif_stmt, 1);
            reveal_with_fuel(sp_else_stmt, 1);
        }
        self.consume(TokenKind::Lbrace)?;
        let body = self.block()?;
        self.consume(TokenKind::Rbrace)?;
        if self.check(TokenKind::Elif) {
            let e = self.elif_stmt()?;
            proof {
                assert(opt_node_view(Some(Box::new(e))) == Some(Box::new(e@)));
            }
            Ok(Node::If { location, logical: Box::new(logical), body: Box::new(body), elseif: Some(Box::new(e)) })
        } else if self.check(TokenKind::Else) {
            let e = self.else_stmt()?;
            proof {
                assert(opt_node_view(Some(Box::new(e))) == Some(Box::new(e@)));
            }
            Ok(Node::If { location, logical: Box::new(logical), body: Box::new(body), elseif: Some(Box::new(e)) })
        } else {
            proof {
                assert(opt_node_view(None) == None::<Box<NodeView>>);
            }
            Ok(Node::If { location, logical: Box::new(logical), body: Box::new(body), elseif: None })
        }
    }

    /// `if cond { ... }` with its `elif` and `else` branches.
    #[verifier::spinoff_prover]
    pub(super) fn if_stmt(&mut self) -> (r: Result<Node, Error>)
        requires
            old(self).inv(),
        ensures
            final(self).inv(),
            final(self).ctx() == old(self).ctx(),
            old(self).pos() <= final(self).pos(),
            sp_if_stmt(old(self).ctx(), old(self).pos()) == node_out(r, final(self).pos()),
            r is Ok ==> old(self).pos() < final(self).pos(),
        decreases old(self).ctx().toks.len() - old(self).pos(), 92int,
    {
        proof {
            reveal_with_fuel(sp_if_stmt, 1);
            reveal_with_fuel(sp_expr, 1);
            reveal_with_fuel(sp_if_tail, 1);
        }
        let location = self.consume(TokenKind::If)?;
        let logical = self.expr()?;
        self.if_tail(location, logical)
    }

    /// `elif cond { ... }` with what follows it.
    #[verifier::spinoff_prover]
    pub(super) fn elif_stmt(&mut self) -> (r: Result<Node, Error>)
        requires
            old(self).inv(),
        ensures
            final(self).inv(),
            final(self).ctx() == old(self).ctx(),
            old(self).pos() <= final(self).pos(),
            sp_elif_stmt(old(self).ctx(), old(self).pos()) == node_out(r, final(self).pos()),
            r is Ok ==> old(self).pos() < final(self).pos(),
        decreases old(self).ctx().toks.len() - old(self).pos(), 92int,
    {
        proof {
            reveal_with_fuel(sp_elif_stmt, 1);
            reveal_with_fuel(sp_expr, 1);
            reveal_with_fuel(sp_if_tail, 1);
        }
        let location = self.consume(TokenKind::Elif)?;
        let logical = self.expr()?;
        self.if_tail(location, logical)
    }

    /// `else { ... }`, as an `if` whose condition is `true`.
    #[verifier::spinoff_prover]
    pub(super) fn else_stmt(&mut self) -> (r: Result<Node, Error>)
        requires
            old(self).inv(),
        ensures
            final(self).inv(),
            final(self).ctx() == old(self).ctx(),
            old(self).pos() <= final(self).pos(),
            sp_else_stmt(old(self).ctx(), old(self).pos()) == node_out(r, final(self).pos()),
            r is Ok ==> old(self).pos() < final(self).pos(),
        decreases old(self).ctx().toks.len() - old(self).pos(), 92int,
    {
        proof {
            reveal_with_fuel(sp_else_stmt, 1);
            reveal_with_fuel(sp_block, 1);
        }
        let location = self.consume(TokenKind::Else)?;
        self.consume(TokenKind::Lbrace)?;
        let body = self.block()?;
        self.consume(TokenKind::Rbrace)?;
        let address = location.address.clone();
        let value = Token::new(TokenKind::Bool, string_of("true"), address);
        let ghost value_view = value@;
        let logical = Node::Bool { value };
        proof {
            assert(logical@ == NodeView::Bool { value: value_view });
            assert(opt_node_view(None) == None::<Box<NodeView>>);
        }
        Ok(Node::If {
            location,
            logical: Box::new(logical),
            body: Box::new(body),
            elseif: None,
        })
    }

    /// An access used as a statement.
    #[verifier::spinoff_prover]
    pub(super) fn access_stmt(&mut self) -> (r: Result<Node, Error>)
        requires
            old(self).inv(),
        ensures
            final(self).inv(),
            final(self).ctx() == old(self).ctx(),
            old(self).pos() <= final(self).pos(),
            sp_access_stmt(old(self).ctx(), old(self).pos()) == node_out(r, final(self).pos()),
            r is Ok ==> old(self).pos() < final(self).pos(),
        decreases old(self).ctx().toks.len() - old(self).pos(), 90int,
    {
        proof {
            reveal_with_fuel(sp_access_stmt, 1);
            reveal_with_fuel(sp_access, 1);
            reveal_with_fuel(sp_error_propagation, 1);
        }
        if self.check(TokenKind::New) {
            self.access(false)
        } else {
            self.error_propagation(false)
        }
    }

    /// `{ statements }`
    #[verifier::spinoff_prover]
    pub(super) fn braced_block(&mut self) -> (r: Result<Node, Error>)
        requires
            old(self).inv(),
        ensures
            final(self).inv(),
            final(self).ctx() == old(self).ctx(),
            old(self).pos() <= final(self).pos(),
            sp_braced_block(old(self).ctx(), old(self).pos()) == node_out(r, final(self).pos()),
            r is Ok ==> old(self).pos() < final(self).pos(),
        decreases old(self).ctx().toks.len() - old(self).pos(), 101int,
    {
        proof {
            reveal_with_fuel(sp_braced_block, 1);
            reveal_with_fuel(sp_block, 1);
        }
        self.consume(TokenKind::Lbrace)?;
        let body = self.block()?;
        self.consume(TokenKind::Rbrace)?;
        Ok(body)
    }

    /// The body of a case or default of a `match` statement.
    #[verifier::spinoff_prover]
    pub(super) fn case_body_stmt(&mut self, location: &Token) -> (r: Result<Node, Error>)
        requires
            old(self).inv(),
        ensures
            final(self).inv(),
            final(self).ctx() == old(self).ctx(),
            old(self).pos() <= final(self).pos(),
            sp_case_body_stmt(old(self).ctx(), old(self).pos(), location@) == node_out(r, final(self).pos()),
            r is Ok ==> old(self).pos() < final(self).pos(),
        decreases old(self).ctx().toks.len() - old(self).pos(), 102int,
    {
        proof {
            reveal_with_fuel(sp_case_body_stmt, 1);
            reveal_with_fuel(sp_braced_block, 1);
            reveal_with_fuel(sp_statement, 1);
        }
        if self.check(TokenKind::Arrow) {
            self.consume(TokenKind::Arrow)?;
            self.statement()
        } else if self.check(TokenKind::Lbrace) {
            self.braced_block()
        } else {
            Err(Error::new(location.address.clone(), "expected arrow or brace after case value", "check your code"))
        }
    }

    /// `match value { case v -> statement ... default -> statement }`
    #[verifier::spinoff_prover]
    pub(super) fn match_stmt(&mut self) -> (r: Result<Node, Error>)
        requires
            old(self).inv(),
        ensures
            final(self).inv(),
            final(self).ctx() == old(self).ctx(),
            old(self).pos() <= final(self).pos(),
            sp_match_stmt(old(self).ctx(), old(self).pos()) == node_out(r, final(self).pos()),
            r is Ok ==> old(self).pos() < final(self).pos(),
        decreases old(self).ctx().toks.len() - old(self).pos(), 90int,
    {
        proof {
            reveal_with_fuel(sp_match_stmt, 1);
            reveal_with_fuel(sp_case_body_stmt, 1);
            reveal_with_fuel(sp_expr, 1);
            reveal_with_fuel(sp_match_stmt_cases, 1);
        }
        let ghost c = self.ctx();
        let location = self.consume(TokenKind::Match)?;
        let matchable = self.expr()?;
        self.consume(TokenKind::Lbrace)?;
        let ghost p3 = self.pos();
        let mut cases: Vec<MatchCase> = Vec::new();
        proof {
            assert(cases_view(cases@) =~= Seq::<MatchCaseView>::empty());
        }
        let mut failed: Option<Error> = None;
        loop
            invariant_except_break
                sp_match_stmt_cases(c, self.pos(), location@, cases_view(cases@)) == sp_match_stmt_cases(c, p3, location@, Seq::empty()),
                failed is None,
            invariant
                self.inv(),
                self.ctx() == c,
                c == old(self).ctx(),
                self.pos() >= p3,
                p3 > old(self).pos(),
            ensures
                match failed {
                    Some(e) => sp_match_stmt_cases(c, p3, location@, Seq::empty()) == Err::<(Seq<MatchCaseView>, int), ErrorView>(e@),
                    None => sp_match_stmt_cases(c, p3, location@, Seq::empty()) == Ok::<(Seq<MatchCaseView>, int), ErrorView>((cases_view(cases@), self.pos())),
                },
            decreases self.ctx().toks.len() - self.pos(),
        {
            proof {
                reveal_with_fuel(sp_match_stmt_cases, 1);
                reveal_with_fuel(sp_case_body_stmt, 1);
                reveal_with_fuel(sp_expr, 1);
            }
            if !self.check(TokenKind::Case) {
                break;
            }
            let _ = self.consume(TokenKind::Case);
            let value = match self.expr() {
                Ok(v) => v,
                Err(e) => {
                    failed = Some(e);
                    break;
                },
            };
            let body = match self.case_body_stmt(&location) {
                Ok(b) => b,
                Err(e) => {
                    failed = Some(e);
                    break;
                },
            };
            let case = MatchCase::new(Box::new(value), Box::new(body));
            proof {
                lemma_cases_view_push(cases@, case);
            }
            cases.push(case);
        }
        proof {
            reveal_with_fuel(sp_match_stmt, 1);
            reveal_with_fuel(sp_case_body_stmt, 1);
            reveal_with_fuel(sp_expr, 1);
            reveal_with_fuel(sp_match_stmt_cases, 1);
        }
        if let Some(e) = failed {
            return Err(e);
        }
        self.consume(TokenKind::Default)?;
        let default = self.case_body_stmt(&location)?;
        self.consume(TokenKind::Rbrace)?;
        Ok(Node::Match { location, matchable: Box::new(matchable), cases, default: Box::new(default) })
    }

    /// `return expr`
    #[verifier::spinoff_prover]
    pub(super) fn return_stmt(&mut self) -> (r: Result<Node, Error>)
        requires
            old(self).inv(),
        ensures
            final(self).inv(),
            final(self).ctx() == old(self).ctx(),
            old(self).pos() <= final(self).pos(),
            sp_return_stmt(old(self).ctx(), old(self).pos()) == node_out(r, final(self).pos()),
            r is Ok ==> old(self).pos() < final(self).pos(),
        decreases old(self).ctx().toks.len() - old(self).pos(), 90int,
    {
        proof {
            reveal_with_fuel(sp_return_stmt, 1);
            reveal_with_fuel(sp_expr, 1);
        }
        let location = self.consume(TokenKind::Ret)?;
        let value = self.expr()?;
        Ok(Node::Ret { location, value: Box::new(value) })
    }

    /// `fn name(params) { ... }`
    #[verifier::spinoff_prover]
    pub(super) fn function_stmt(&mut self) -> (r: Result<Node, Error>)
        requires
            old(self).inv(),
        ensures
            final(self).inv(),
            final(self).ctx() == old(self).ctx(),
            old(self).pos() <= final(self).pos(),
            sp_function_stmt(old(self).ctx(), old(self).pos()) == node_out(r, final(self).pos()),
            r is Ok ==> old(self).pos() < final(self).pos(),
        decreases old(self).ctx().toks.len() - old(self).pos(), 90int,
    {
        proof {
            reveal_with_fuel(sp_function_stmt, 1);
            reveal_with_fuel(sp_block, 1);
        }
        self.consume(TokenKind::Fn)?;
        let name = self.consume(TokenKind::Id)?;
        let params = self.opt_params()?;
        self.consume(TokenKind::Lbrace)?;
        let body = self.block()?;
        self.consume(TokenKind::Rbrace)?;
        let full_name = self.to_full_name(name.clone());
        Ok(Node::FnDeclaration { name, full_name: Some(full_name), params, body: Box::new(body), make_closure: true })
    }

    /// `for name in iterable { ... }`
    #[verifier::spinoff_prover]
    pub(super) fn for_stmt(&mut self) -> (r: Result<Node, Error>)
        requires
            old(self).inv(),
        ensures
            final(self).inv(),
            final(self).ctx() == old(self).ctx(),
            old(self).pos() <= final(self).pos(),
            sp_for_stmt(old(self).ctx(), old(self).pos()) == node_out(r, final(self).pos()),
            r is Ok ==> old(self).pos() < final(self).pos(),
        decreases old(self).ctx().toks.len() - old(self).pos(), 90int,
    {
        proof {
            reveal_with_fuel(sp_for_stmt, 1);
            reveal_with_fuel(sp_braced_block, 1);
            reveal_with_fuel(sp_expr, 1);
        }
        self.consume(TokenKind::For)?;
        let name = self.consume(TokenKind::Id)?;
        self.consume(TokenKind::In)?;
        let value = self.expr()?;
        let body = self.braced_block()?;
        Ok(Node::For { iterable: Box::new(value), variable_name: name, body: Box::new(body) })
    }

    /// `while cond { ... }`
    #[verifier::spinoff_prover]
    pub(super) fn while_stmt(&mut self) -> (r: Result<Node, Error>)
        requires
            old(self).inv(),
        ensures
            final(self).inv(),
            final(self).ctx() == old(self).ctx(),
            old(self).pos() <= final(self).pos(),
            sp_while_stmt(old(self).ctx(), old(self).pos()) == node_out(r, final(self).pos()),
            r is Ok ==> old(self).pos() < final(self).pos(),
        decreases old(self).ctx().toks.len() - old(self).pos(), 90int,
    {
        proof {
            reveal_with_fuel(sp_while_stmt, 1);
            reveal_with_fuel(sp_braced_block, 1);
            reveal_with_fuel(sp_expr, 1);
        }
        let location = self.consume(TokenKind::While)?;
        let logical = self.expr()?;
        let body = self.braced_block()?;
        Ok(Node::While { location, logical: Box::new(logical), body: Box::new(body) })
    }

    /// `trait Name { fn f(params) ... }`, functions with or without a default body.
    #[verifier::spinoff_prover]
    pub(super) fn trait_stmt(&mut self) -> (r: Result<Node, Error>)
        requires
            old(self).inv(),
        ensures
            final(self).inv(),
            final(self).ctx() == old(self).ctx(),
            old(self).pos() <= final(self).pos(),
            sp_trait_stmt(old(self).ctx(), old(self).pos()) == node_out(r, final(self).pos()),
            r is Ok ==> old(self).pos() < final(self).pos(),
        decreases old(self).ctx().toks.len() - old(self).pos(), 90int,
    {
        proof {
            reveal_with_fuel(sp_trait_stmt, 1);
            reveal_with_fuel(sp_trait_items, 1);
        }
        let ghost c = self.ctx();
        self.consume(TokenKind::Trait)?;
        let name = self.consume(TokenKind::Id)?;
        self.consume(TokenKind::Lbrace)?;
        let ghost p3 = self.pos();
        let mut functions: Vec<TraitNodeFn> = Vec::new();
        proof {
            assert(trait_fns_view(functions@) =~= Seq::<TraitFnView>::empty());
        }
        let mut failed: Option<Error> = None;
        loop
            invariant_except_break
                sp_trait_items(c, self.pos(), trait_fns_view(functions@)) == sp_trait_items(c, p3, Seq::empty()),
                failed is None,
            invariant
                self.inv(),
                self.ctx() == c,
                c == old(self).ctx(),
                self.pos() >= p3,
                p3 > old(self).pos(),
            ensures
                match failed {
                    Some(e) => sp_trait_items(c, p3, Seq::empty()) == Err::<(Seq<TraitFnView>, int), ErrorView>(e@),
                    None => sp_trait_items(c, p3, Seq::empty()) == Ok::<(Seq<TraitFnView>, int), ErrorView>((trait_fns_view(functions@), self.pos())),
                },
            decreases self.ctx().toks.len() - self.pos(),
        {
            proof {
                reveal_with_fuel(sp_trait_items, 1);
                reveal_with_fuel(sp_braced_block, 1);
            }
            if self.is_at_end() || self.check(TokenKind::Rbrace) {
                break;
            }
            let location = self.tokens[self.current].address.clone();
            if self.check(TokenKind::Fn) {
                let _ = self.consume(TokenKind::Fn);
                let fn_name = match self.consume(TokenKind::Id) {
                    Ok(t) => t,
                    Err(e) => {
                        failed = Some(e);
                        break;
                    },
                };
                let params = match self.opt_params() {
                    Ok(p) => p,
                    Err(e) => {
                        failed = Some(e);
                        break;
                    },
                };
                let default = if self.check(TokenKind::Lbrace) {
                    match self.braced_block() {
                        Ok(b) => Some(Box::new(b)),
                        Err(e) => {
                            failed = Some(e);
                            break;
                        },
                    }
                } else {
                    None
                };
                let f = TraitNodeFn::new(fn_name, params, default);
                proof {
                    lemma_trait_fns_view_push(functions@, f);
                }
                functions.push(f);
            } else {
                failed = Some(Error::new(location, "only fn-s can be declared in trait.", "you can create this declaration: 'fn meow(cat)'"));
                break;
            }
        }
        proof {
            reveal_with_fuel(sp_trait_stmt, 1);
            reveal_with_fuel(sp_trait_items, 1);
            reveal_with_fuel(sp_braced_block, 1);
        }
        if let Some(e) = failed {
            return Err(e);
        }
        self.consume(TokenKind::Rbrace)?;
        let full_name = self.to_full_name(name.clone());
        Ok(Node::Trait { name, full_name: Some(full_name), functions })
    }

    /// One statement, chosen by its first token.
    #[verifier::spinoff_prover]
    pub(super) fn statement(&mut self) -> (r: Result<Node, Error>)
        requires
            old(self).inv(),
        ensures
            final(self).inv(),
            final(self).ctx() == old(self).ctx(),
            old(self).pos() <= final(self).pos(),
            sp_statement(old(self).ctx(), old(self).pos()) == node_out(r, final(self).pos()),
            r is Ok ==> old(self).pos() < final(self).pos(),
        decreases old(self).ctx().toks.len() - old(self).pos(), 98int,
    {
        proof {
            reveal_with_fuel(sp_statement, 1);
            reveal_with_fuel(sp_access_stmt, 1);
            reveal_with_fuel(sp_for_stmt, 1);
            reveal_with_fuel(sp_function_stmt, 1);
            reveal_with_fuel(sp_if_stmt, 1);
            reveal_with_fuel(sp_match_stmt, 1);
            reveal_with_fuel(sp_return_stmt, 1);
            reveal_with_fuel(sp_trait_stmt, 1);
            reveal_with_fuel(sp_type_stmt, 1);
            reveal_with_fuel(sp_unit_stmt, 1);
            reveal_with_fuel(sp_while_stmt, 1);
        }
        let tk = self.peek()?;
        match tk.tk_type {
            TokenKind::Type => self.type_stmt(),
            TokenKind::Unit => self.unit_stmt(),
            TokenKind::If => self.if_stmt(),
            TokenKind::New | TokenKind::Id => self.access_stmt(),
            TokenKind::Match => self.match_stmt(),
            TokenKind::Continue => {
                let location = self.consume(TokenKind::Continue)?;
                Ok(Node::Continue { location })
            },
            TokenKind::Break => {
                let location = self.consume(TokenKind::Break)?;
                Ok(Node::Break { location })
            },
            TokenKind::Ret => self.return_stmt(),
            TokenKind::Fn => self.function_stmt(),
            TokenKind::Native => self.native_stmt(),
            TokenKind::Import => self.import_stmt(),
            TokenKind::For => self.for_stmt(),
            TokenKind::While => self.while_stmt(),
            TokenKind::Trait => self.trait_stmt(),
            _ => {
                let mut text = string_of("unexpected stmt token: ");
                text.append(kind_name(tk.tk_type));
                text.append(":");
                text.append(tk.value.as_str());
                proof {
                    assert(text@ =~= "unexpected stmt token: "@ + kind_debug(tk@.tk_type) + ":"@ + tk@.value);
                }
                Err(Error::own_text(tk.address, text, "check your code."))
            },
        }
    }

}

} // verus!
