use vstd::prelude::*;
use vstd::string::*;
use crate::errors::errors::{Error, ErrorView};
use crate::lexer::lexer::{Token, TokenKind};
use crate::parser::ast::{node_view, lemma_cases_view_push, lemma_nodes_view_push, lemma_pairs_view_push, pairs_view, cases_view, MatchCase, MatchCaseView, Node, NodeView, clone_opt_node, nodes_view, opt_node_view, set_should_push};
use crate::text::{debug_str, debug_text, str_equals, string_of};
use crate::parser::grammar::{kind_debug, sp_block, sp_access_expr, sp_error_propagation, sp_access, sp_access_rest, sp_access_part, sp_object_creation, sp_args, sp_args_rest, sp_grouping, sp_anonymous_fn, sp_lambda, sp_primary, sp_case_body_expr, sp_match_expr_cases, sp_match_expr, sp_list_rest, sp_list_expr, sp_key_value, sp_map_rest, sp_map_expr, sp_unary, sp_mul_rest, sp_multiplicative, sp_add_rest, sp_additive, sp_range, sp_impls, sp_compare, sp_equality, sp_logical_rest, sp_logical, sp_expr, node_out, nodes_out};
use crate::parser::parser::{Parser, kind_name, make_lambda};

verus! {

impl Parser {
    /// `( expr, expr, ... )`
    #[verifier::spinoff_prover]
    pub(super) fn args(&mut self) -> (r: Result<Vec<Node>, Error>)
        requires
            old(self).inv(),
        ensures
            final(self).inv(),
            final(self).ctx() == old(self).ctx(),
            old(self).pos() <= final(self).pos(),
            sp_args(old(self).ctx(), old(self).pos()) == nodes_out(r, final(self).pos()),
            r is Ok ==> old(self).pos() < final(self).pos(),
        decreases old(self).ctx().toks.len() - old(self).pos(), 20int,
    {
        proof {
            reveal_with_fuel(sp_args, 1);
            reveal_with_fuel(sp_args_rest, 1);
            reveal_with_fuel(sp_expr, 1);
        }
        let ghost c = self.ctx();
        let mut nodes: Vec<Node> = Vec::new();
        self.consume(TokenKind::Lparen)?;
        if !self.check(TokenKind::Rparen) {
            let first = self.expr()?;
            let ghost fv = first@;
            proof {
                lemma_nodes_view_push(nodes@, first);
            }
            nodes.push(first);
            proof {
                assert(nodes_view(nodes@) =~= seq![fv]);
            }
            let ghost p2 = self.pos();
            let mut failed: Option<Error> = None;
            loop
                invariant_except_break
                    sp_args_rest(c, self.pos(), nodes_view(nodes@)) == sp_args_rest(c, p2, seq![fv]),
                    failed is None,
                invariant
                    self.inv(),
                    self.ctx() == c,
                    c == old(self).ctx(),
                    self.pos() >= p2,
                    p2 > old(self).pos(),
                ensures
                    match failed {
                        Some(e) => sp_args_rest(c, p2, seq![fv]) == Err::<(Seq<NodeView>, int), ErrorView>(e@),
                        None => sp_args_rest(c, p2, seq![fv]) == Ok::<(Seq<NodeView>, int), ErrorView>((nodes_view(nodes@), self.pos())),
                    },
                decreases self.ctx().toks.len() - self.pos(),
            {
                proof {
                    reveal_with_fuel(sp_args_rest, 1);
                    reveal_with_fuel(sp_expr, 1);
                }
                if self.is_at_end() || !self.check(TokenKind::Comma) {
                    break;
                }
                let _ = self.consume(TokenKind::Comma);
                match self.expr() {
                    Ok(a) => {
                        proof {
                            lemma_nodes_view_push(nodes@, a);
                        }
                        nodes.push(a);
                    },
                    Err(e) => {
                        failed = Some(e);
                        break;
                    },
                }
            }
            proof {
                reveal_with_fuel(sp_args, 1);
                reveal_with_fuel(sp_args_rest, 1);
                reveal_with_fuel(sp_expr, 1);
            }
            if let Some(e) = failed {
                return Err(e);
            }
        } else {
            proof {
                assert(nodes_view(nodes@) =~= Seq::<NodeView>::empty());
            }
        }
        self.consume(TokenKind::Rparen)?;
        Ok(nodes)
    }

    /// `new Name(args)`
    #[verifier::spinoff_prover]
    pub(super) fn object_creation_expr(&mut self) -> (r: Result<Node, Error>)
        requires
            old(self).inv(),
        ensures
            final(self).inv(),
            final(self).ctx() == old(self).ctx(),
            old(self).pos() <= final(self).pos(),
            sp_object_creation(old(self).ctx(), old(self).pos()) == node_out(r, final(self).pos()),
            r is Ok ==> old(self).pos() < final(self).pos(),
        decreases old(self).ctx().toks.len() - old(self).pos(), 30int,
    {
        proof {
            reveal_with_fuel(sp_object_creation, 1);
            reveal_with_fuel(sp_args, 1);
        }
        self.consume(TokenKind::New)?;
        let name = self.consume(TokenKind::Id)?;
        let args = self.args()?;
        Ok(Node::Instance { name, constructor: args, should_push: true })
    }

    /// One part of an access chain: a definition, assignment, call or read of an identifier, or an instance creation.
    #[verifier::spinoff_prover]
    pub(super) fn access_part(&mut self, previous: Option<Box<Node>>) -> (r: Result<Node, Error>)
        requires
            old(self).inv(),
        ensures
            final(self).inv(),
            final(self).ctx() == old(self).ctx(),
            old(self).pos() <= final(self).pos(),
            sp_access_part(old(self).ctx(), old(self).pos(), opt_node_view(previous)) == node_out(r, final(self).pos()),
            r is Ok ==> old(self).pos() < final(self).pos(),
        decreases old(self).ctx().toks.len() - old(self).pos(), 40int,
    {
        proof {
            reveal_with_fuel(sp_access_part, 1);
            reveal_with_fuel(sp_args, 1);
            reveal_with_fuel(sp_expr, 1);
            reveal_with_fuel(sp_object_creation, 1);
        }
        if self.check(TokenKind::Id) {
            let identifier = self.consume(TokenKind::Id)?;
            // define ':='
            if self.check(TokenKind::Walrus) {
                self.consume(TokenKind::Walrus)?;
                let value = self.expr()?;
                Ok(Node::Define { previous, name: identifier, value: Box::new(value) })
            }
            // assign '='
            else if self.check(TokenKind::Assign) {
                self.consume(TokenKind::Assign)?;
                let value = self.expr()?;
                Ok(Node::Assign { previous, name: identifier, value: Box::new(value) })
            }
            // +=, -=, *=, /=
            else if self.check(TokenKind::AssignAdd) || self.check(TokenKind::AssignSub) || self.check(TokenKind::AssignMul)
                || self.check(TokenKind::AssignDiv) {
                let location = self.peek()?;
                let op: &str = match location.tk_type {
                    TokenKind::AssignSub => "-",
                    TokenKind::AssignMul => "*",
                    TokenKind::AssignDiv => "/",
                    _ => "+",
                };
                self.consume(location.tk_type)?;
                // node that reads the value
                let var = Node::Get { previous: clone_opt_node(&previous), name: identifier.clone(), should_push: true };
                let value = self.expr()?;
                let op_token = Token::new(TokenKind::Op, string_of(op), location.address);
                let ghost var_view = var@;
                let ghost op_view = op_token@;
                let ghost value_view = value@;
                let bin = Node::Bin { left: Box::new(var), right: Box::new(value), op: op_token };
                proof {
                    assert(bin@ == NodeView::Bin { left: Box::new(var_view), right: Box::new(value_view), op: op_view });
                }
                Ok(Node::Assign { previous, name: identifier, value: Box::new(bin) })
            }
            // call
            else if self.check(TokenKind::Lparen) {
                let args = self.args()?;
                Ok(Node::Call { previous, name: identifier, args, should_push: true })
            }
            // read
            else {
                Ok(Node::Get { previous, name: identifier, should_push: true })
            }
        } else {
            self.object_creation_expr()
        }
    }

    /// `. part` repeated after the first part of an access chain.
    #[verifier::spinoff_prover]
    pub(super) fn access_rest(&mut self, left: Node, is_expr: bool) -> (r: Result<Node, Error>)
        requires
            old(self).inv(),
        ensures
            final(self).inv(),
            final(self).ctx() == old(self).ctx(),
            old(self).pos() <= final(self).pos(),
            sp_access_rest(old(self).ctx(), old(self).pos(), left@, is_expr) == node_out(r, final(self).pos()),
        decreases old(self).ctx().toks.len() - old(self).pos(), 50int,
    {
        proof {
            reveal_with_fuel(sp_access_rest, 1);
            reveal_with_fuel(sp_access_part, 1);
        }
        if self.check(TokenKind::Dot) {
            self.consume(TokenKind::Dot)?;
            let location = self.peek()?.address;
            let next = self.access_part(Some(Box::new(left)))?;
            if is_expr {
                match next {
                    Node::Define { .. } => {
                        return Err(Error::new(location, "couldn't use define in expr.", "check your code."));
                    },
                    Node::Assign { .. } => {
                        return Err(Error::new(location, "couldn't use assign in expr.", "check your code."));
                    },
                    _ => {},
                }
            }
            self.access_rest(next, is_expr)
        } else {
            Ok(left)
        }
    }

    /// An access chain; `is_expr` tells whether its value is used.
    #[verifier::spinoff_prover]
    pub(super) fn access(&mut self, is_expr: bool) -> (r: Result<Node, Error>)
        requires
            old(self).inv(),
        ensures
            final(self).inv(),
            final(self).ctx() == old(self).ctx(),
            old(self).pos() <= final(self).pos(),
            sp_access(old(self).ctx(), old(self).pos(), is_expr) == node_out(r, final(self).pos()),
            r is Ok ==> old(self).pos() < final(self).pos(),
        decreases old(self).ctx().toks.len() - old(self).pos(), 50int,
    {
        proof {
            reveal_with_fuel(sp_access, 1);
            reveal_with_fuel(sp_access_part, 1);
            reveal_with_fuel(sp_access_rest, 1);
        }
        let left = self.access_part(None)?;
        let left = self.access_rest(left, is_expr)?;
        Ok(set_should_push(left, is_expr))
    }

    /// An access chain, with `?` after it when present.
    #[verifier::spinoff_prover]
    pub(super) fn error_propagation(&mut self, is_expr: bool) -> (r: Result<Node, Error>)
        requires
            old(self).inv(),
        ensures
            final(self).inv(),
            final(self).ctx() == old(self).ctx(),
            old(self).pos() <= final(self).pos(),
            sp_error_propagation(old(self).ctx(), old(self).pos(), is_expr) == node_out(r, final(self).pos()),
            r is Ok ==> old(self).pos() < final(self).pos(),
        decreases old(self).ctx().toks.len() - old(self).pos(), 60int,
    {
        proof {
            reveal_with_fuel(sp_error_propagation, 1);
            reveal_with_fuel(sp_access, 1);
        }
        let node = self.access(is_expr)?;
        if self.check(TokenKind::Question) {
            let question = self.consume(TokenKind::Question)?;
            Ok(Node::ErrorPropagation { location: question, value: Box::new(node), should_push: is_expr })
        } else {
            Ok(node)
        }
    }

    /// An access used as a value.
    #[verifier::spinoff_prover]
    pub(super) fn access_expr(&mut self) -> (r: Result<Node, Error>)
        requires
            old(self).inv(),
        ensures
            final(self).inv(),
            final(self).ctx() == old(self).ctx(),
            old(self).pos() <= final(self).pos(),
            sp_access_expr(old(self).ctx(), old(self).pos()) == node_out(r, final(self).pos()),
            r is Ok ==> old(self).pos() < final(self).pos(),
        decreases old(self).ctx().toks.len() - old(self).pos(), 70int,
    {
        proof {
            reveal_with_fuel(sp_access_expr, 1);
            reveal_with_fuel(sp_access, 1);
            reveal_with_fuel(sp_error_propagation, 1);
        }
        if self.check(TokenKind::New) {
            self.access(true)
        } else {
            self.error_propagation(true)
        }
    }

    /// `( expr )`
    #[verifier::spinoff_prover]
    pub(super) fn grouping_expr(&mut self) -> (r: Result<Node, Error>)
        requires
            old(self).inv(),
        ensures
            final(self).inv(),
            final(self).ctx() == old(self).ctx(),
            old(self).pos() <= final(self).pos(),
            sp_grouping(old(self).ctx(), old(self).pos()) == node_out(r, final(self).pos()),
            r is Ok ==> old(self).pos() < final(self).pos(),
        decreases old(self).ctx().toks.len() - old(self).pos(), 70int,
    {
        proof {
            reveal_with_fuel(sp_grouping, 1);
            reveal_with_fuel(sp_expr, 1);
        }
        self.consume(TokenKind::Lparen)?;
        let expr = self.expr()?;
        self.consume(TokenKind::Rparen)?;
        Ok(expr)
    }

    /// `fn (params) { ... }` as a value.
    #[verifier::spinoff_prover]
    pub(super) fn anonymous_fn_expr(&mut self) -> (r: Result<Node, Error>)
        requires
            old(self).inv(),
        ensures
            final(self).inv(),
            final(self).ctx() == old(self).ctx(),
            old(self).pos() <= final(self).pos(),
            sp_anonymous_fn(old(self).ctx(), old(self).pos()) == node_out(r, final(self).pos()),
            r is Ok ==> old(self).pos() < final(self).pos(),
        decreases old(self).ctx().toks.len() - old(self).pos(), 70int,
    {
        proof {
            reveal_with_fuel(sp_anonymous_fn, 1);
            reveal_with_fuel(sp_block, 1);
        }
        let location = self.consume(TokenKind::Fn)?;
        let params = self.opt_params()?;
        self.consume(TokenKind::Lbrace)?;
        let body = self.block()?;
        self.consume(TokenKind::Rbrace)?;
        Ok(Node::AnFnDeclaration { location, params, body: Box::new(body), make_closure: true })
    }

    /// `lambda (params) -> expr`
    #[verifier::spinoff_prover]
    pub(super) fn lambda_fn_expr(&mut self) -> (r: Result<Node, Error>)
        requires
            old(self).inv(),
        ensures
            final(self).inv(),
            final(self).ctx() == old(self).ctx(),
            old(self).pos() <= final(self).pos(),
            sp_lambda(old(self).ctx(), old(self).pos()) == node_out(r, final(self).pos()),
            r is Ok ==> old(self).pos() < final(self).pos(),
        decreases old(self).ctx().toks.len() - old(self).pos(), 70int,
    {
        proof {
            reveal_with_fuel(sp_lambda, 1);
            reveal_with_fuel(sp_expr, 1);
        }
        let location = self.consume(TokenKind::Lambda)?;
        let params = self.opt_params()?;
        self.consume(TokenKind::Arrow)?;
        let ghost p3 = self.pos();
        let body = self.expr()?;
        let r = Node::AnFnDeclaration {
            location: location.clone(),
            params,
            body: Box::new(Node::Ret { location, value: Box::new(body) }),
            make_closure: true,
        };
        proof {
            reveal_with_fuel(node_view, 2);
        }
        Ok(r)
    }

    /// A literal, a parenthesised expression, an access or another primary form.
    #[verifier::spinoff_prover]
    pub(super) fn primary_expr(&mut self) -> (r: Result<Node, Error>)
        requires
            old(self).inv(),
        ensures
            final(self).inv(),
            final(self).ctx() == old(self).ctx(),
            old(self).pos() <= final(self).pos(),
            sp_primary(old(self).ctx(), old(self).pos()) == node_out(r, final(self).pos()),
            r is Ok ==> old(self).pos() < final(self).pos(),
        decreases old(self).ctx().toks.len() - old(self).pos(), 71int,
    {
        proof {
            reveal_with_fuel(sp_primary, 1);
            reveal_with_fuel(sp_access_expr, 1);
            reveal_with_fuel(sp_anonymous_fn, 1);
            reveal_with_fuel(sp_grouping, 1);
            reveal_with_fuel(sp_lambda, 1);
            reveal_with_fuel(sp_list_expr, 1);
            reveal_with_fuel(sp_map_expr, 1);
            reveal_with_fuel(sp_match_expr, 1);
        }
        let tk = self.peek()?;
        match tk.tk_type {
            TokenKind::Id | TokenKind::New => self.access_expr(),
            TokenKind::Number => Ok(Node::Number { value: self.consume(TokenKind::Number)? }),
            TokenKind::Text => Ok(Node::String { value: self.consume(TokenKind::Text)? }),
            TokenKind::Bool => Ok(Node::Bool { value: self.consume(TokenKind::Bool)? }),
            TokenKind::Lparen => self.grouping_expr(),
            TokenKind::Lbrace => self.map_expr(),
            TokenKind::Lbracket => self.list_expr(),
            TokenKind::Null => Ok(Node::Null { location: self.consume(TokenKind::Null)? }),
            TokenKind::Fn => self.anonymous_fn_expr(),
            TokenKind::Lambda => self.lambda_fn_expr(),
            TokenKind::Match => self.match_expr(),
            _ => {
                let mut text = string_of("invalid token. ");
                text.append(kind_name(tk.tk_type));
                text.append(":");
                let quoted = debug_text(tk.value.as_str());
                text.append(quoted.as_str());
                proof {
                    assert(text@ =~= "invalid token. "@ + kind_debug(tk@.tk_type) + ":"@ + debug_str(tk@.value));
                }
                Err(Error::own_text(tk.address, text, "check your code."))
            },
        }
    }

    /// The body of a case or default of a `match` expression.
    #[verifier::spinoff_prover]
    pub(super) fn case_body_expr(&mut self, location: &Token) -> (r: Result<Node, Error>)
        requires
            old(self).inv(),
        ensures
            final(self).inv(),
            final(self).ctx() == old(self).ctx(),
            old(self).pos() <= final(self).pos(),
            sp_case_body_expr(old(self).ctx(), old(self).pos(), location@) == node_out(r, final(self).pos()),
            r is Ok ==> old(self).pos() < final(self).pos(),
        decreases old(self).ctx().toks.len() - old(self).pos(), 69int,
    {
        proof {
            reveal_with_fuel(sp_case_body_expr, 1);
            reveal_with_fuel(sp_block, 1);
            reveal_with_fuel(sp_expr, 1);
        }
        if self.check(TokenKind::Arrow) {
            self.consume(TokenKind::Arrow)?;
            self.expr()
        } else if self.check(TokenKind::Lbrace) {
            self.consume(TokenKind::Lbrace)?;
            let body = self.block()?;
            self.consume(TokenKind::Rbrace)?;
            Ok(make_lambda(location, body))
        } else {
            Err(Error::new(location.address.clone(), "expected arrow or brace after case value", "check your code"))
        }
    }

    /// `match value { case v -> expr ... default -> expr }` as a value.
    #[verifier::spinoff_prover]
    pub(super) fn match_expr(&mut self) -> (r: Result<Node, Error>)
        requires
            old(self).inv(),
        ensures
            final(self).inv(),
            final(self).ctx() == old(self).ctx(),
            old(self).pos() <= final(self).pos(),
            sp_match_expr(old(self).ctx(), old(self).pos()) == node_out(r, final(self).pos()),
            r is Ok ==> old(self).pos() < final(self).pos(),
        decreases old(self).ctx().toks.len() - old(self).pos(), 70int,
    {
        proof {
            reveal_with_fuel(sp_match_expr, 1);
            reveal_with_fuel(sp_case_body_expr, 1);
            reveal_with_fuel(sp_expr, 1);
            reveal_with_fuel(sp_match_expr_cases, 1);
        }
        let ghost c = self.ctx();
        let location = self.consume(TokenKind::Match)?;
        let matchable = self.expr()?;
        self.consume(TokenKind::Lbrace)?;
        let ghost p3 = self.pos();
        let mut cases: Vec<MatchCase> = Vec::new();
        proof {
            assert(cases_view(cases@) =~= Seq::<MatchCaseView>::empty());
        }
        let mut failed: Option<Error> = None;
        loop
            invariant_except_break
                sp_match_expr_cases(c, self.pos(), location@, cases_view(cases@)) == sp_match_expr_cases(c, p3, location@, Seq::empty()),
                failed is None,
            invariant
                self.inv(),
                self.ctx() == c,
                c == old(self).ctx(),
                self.pos() >= p3,
                p3 > old(self).pos(),
            ensures
                match failed {
                    Some(e) => sp_match_expr_cases(c, p3, location@, Seq::empty()) == Err::<(Seq<MatchCaseView>, int), ErrorView>(e@),
                    None => sp_match_expr_cases(c, p3, location@, Seq::empty()) == Ok::<(Seq<MatchCaseView>, int), ErrorView>((cases_view(cases@), self.pos())),
                },
            decreases self.ctx().toks.len() - self.pos(),
        {
            proof {
                reveal_with_fuel(sp_match_expr_cases, 1);
                reveal_with_fuel(sp_case_body_expr, 1);
                reveal_with_fuel(sp_expr, 1);
            }
            if !self.check(TokenKind::Case) {
                break;
            }
            let _ = self.consume(TokenKind::Case);
            let value = match self.expr() {
                Ok(v) => v,
                Err(e) => {
                    failed = Some(e);
                    break;
                },
            };
            let body = match self.case_body_expr(&location) {
                Ok(b) => b,
                Err(e) => {
                    failed = Some(e);
                    break;
                },
            };
            let case = MatchCase::new(Box::new(value), Box::new(body));
            proof {
                lemma_cases_view_push(cases@, case);
            }
            cases.push(case);
        }
        proof {
            reveal_with_fuel(sp_match_expr, 1);
            reveal_with_fuel(sp_case_body_expr, 1);
            reveal_with_fuel(sp_expr, 1);
            reveal_with_fuel(sp_match_expr_cases, 1);
        }
        if let Some(e) = failed {
            return Err(e);
        }
        self.consume(TokenKind::Default)?;
        let default = self.case_body_expr(&location)?;
        self.consume(TokenKind::Rbrace)?;
        Ok(Node::Match { location, matchable: Box::new(matchable), cases, default: Box::new(default) })
    }

    /// `[ expr, ... ]`
    #[verifier::spinoff_prover]
    pub(super) fn list_expr(&mut self) -> (r: Result<Node, Error>)
        requires
            old(self).inv(),
        ensures
            final(self).inv(),
            final(self).ctx() == old(self).ctx(),
            old(self).pos() <= final(self).pos(),
            sp_list_expr(old(self).ctx(), old(self).pos()) == node_out(r, final(self).pos()),
            r is Ok ==> old(self).pos() < final(self).pos(),
        decreases old(self).ctx().toks.len() - old(self).pos(), 70int,
    {
        proof {
            reveal_with_fuel(sp_list_expr, 1);
            reveal_with_fuel(sp_expr, 1);
            reveal_with_fuel(sp_list_rest, 1);
        }
        let ghost c = self.ctx();
        let location = self.consume(TokenKind::Lbracket)?;
        if self.check(TokenKind::Rbracket) {
            self.consume(TokenKind::Rbracket)?;
            let values: Vec<Node> = Vec::new();
            proof {
                assert(nodes_view(values@) =~= Seq::<NodeView>::empty());
            }
            Ok(Node::List { location, values })
        } else {
            let first = self.expr()?;
            let ghost fv = first@;
            let mut nodes: Vec<Node> = Vec::new();
            proof {
                lemma_nodes_view_push(nodes@, first);
            }
            nodes.push(first);
            proof {
                assert(nodes_view(nodes@) =~= seq![fv]);
            }
            let ghost p2 = self.pos();
            let mut failed: Option<Error> = None;
            loop
                invariant_except_break
                    sp_list_rest(c, self.pos(), nodes_view(nodes@)) == sp_list_rest(c, p2, seq![fv]),
                    failed is None,
                invariant
                    self.inv(),
                    self.ctx() == c,
                    c == old(self).ctx(),
                    self.pos() >= p2,
                    p2 > old(self).pos(),
                ensures
                    match failed {
                        Some(e) => sp_list_rest(c, p2, seq![fv]) == Err::<(Seq<NodeView>, int), ErrorView>(e@),
                        None => sp_list_rest(c, p2, seq![fv]) == Ok::<(Seq<NodeView>, int), ErrorView>((nodes_view(nodes@), self.pos())),
                    },
                decreases self.ctx().toks.len() - self.pos(),
            {
                proof {
                    reveal_with_fuel(sp_list_rest, 1);
                    reveal_with_fuel(sp_expr, 1);
                }
                if !self.check(TokenKind::Comma) {
                    break;
                }
                let _ = self.consume(TokenKind::Comma);
                match self.expr() {
                    Ok(a) => {
                        proof {
                            lemma_nodes_view_push(nodes@, a);
                        }
                        nodes.push(a);
                    },
                    Err(e) => {
                        failed = Some(e);
                        break;
                    },
                }
            }
            proof {
                reveal_with_fuel(sp_list_expr, 1);
                reveal_with_fuel(sp_expr, 1);
                reveal_with_fuel(sp_list_rest, 1);
            }
            if let Some(e) = failed {
                return Err(e);
            }
            self.consume(TokenKind::Rbracket)?;
            Ok(Node::List { location, values: nodes })
        }
    }

    /// `key : value`
    #[verifier::spinoff_prover]
    pub(super) fn key_value_expr(&mut self) -> (r: Result<(Node, Node), Error>)
        requires
            old(self).inv(),
        ensures
            final(self).inv(),
            final(self).ctx() == old(self).ctx(),
            old(self).pos() <= final(self).pos(),
            match r {
                Ok(kv) => sp_key_value(old(self).ctx(), old(self).pos()) == Ok::<((NodeView, NodeView), int), ErrorView>(((kv.0@, kv.1@), final(self).pos())),
                Err(e) => sp_key_value(old(self).ctx(), old(self).pos()) == Err::<((NodeView, NodeView), int), ErrorView>(e@),
            },
            r is Ok ==> old(self).pos() < final(self).pos(),
        decreases old(self).ctx().toks.len() - old(self).pos(), 84int,
    {
        proof {
            reveal_with_fuel(sp_key_value, 1);
            reveal_with_fuel(sp_expr, 1);
        }
        let l = self.expr()?;
        self.consume(TokenKind::Colon)?;
        let r = self.expr()?;
        Ok((l, r))
    }

    /// `{ key: value, ... }`
    #[verifier::spinoff_prover]
    pub(super) fn map_expr(&mut self) -> (r: Result<Node, Error>)
        requires
            old(self).inv(),
        ensures
            final(self).inv(),
            final(self).ctx() == old(self).ctx(),
            old(self).pos() <= final(self).pos(),
            sp_map_expr(old(self).ctx(), old(self).pos()) == node_out(r, final(self).pos()),
            r is Ok ==> old(self).pos() < final(self).pos(),
        decreases old(self).ctx().toks.len() - old(self).pos(), 70int,
    {
        proof {
            reveal_with_fuel(sp_map_expr, 1);
            reveal_with_fuel(sp_key_value, 1);
            reveal_with_fuel(sp_map_rest, 1);
        }
        let ghost c = self.ctx();
        let location = self.consume(TokenKind::Lbrace)?;
        if self.check(TokenKind::Rbrace) {
            self.consume(TokenKind::Rbrace)?;
            let values: Vec<(Node, Node)> = Vec::new();
            proof {
                assert(pairs_view(values@) =~= Seq::<(NodeView, NodeView)>::empty());
            }
            Ok(Node::MapLiteral { location, values })
        } else {
            let first = self.key_value_expr()?;
            let ghost fv = (first.0@, first.1@);
            let mut nodes: Vec<(Node, Node)> = Vec::new();
            proof {
                lemma_pairs_view_push(nodes@, first);
            }
            nodes.push(first);
            proof {
                assert(pairs_view(nodes@) =~= seq![fv]);
            }
            let ghost p2 = self.pos();
            let mut failed: Option<Error> = None;
            loop
                invariant_except_break
                    sp_map_rest(c, self.pos(), pairs_view(nodes@)) == sp_map_rest(c, p2, seq![fv]),
                    failed is None,
                invariant
                    self.inv(),
                    self.ctx() == c,
                    c == old(self).ctx(),
                    self.pos() >= p2,
                    p2 > old(self).pos(),
                ensures
                    match failed {
                        Some(e) => sp_map_rest(c, p2, seq![fv]) == Err::<(Seq<(NodeView, NodeView)>, int), ErrorView>(e@),
                        None => sp_map_rest(c, p2, seq![fv]) == Ok::<(Seq<(NodeView, NodeView)>, int), ErrorView>((pairs_view(nodes@), self.pos())),
                    },
                decreases self.ctx().toks.len() - self.pos(),
            {
                proof {
                    reveal_with_fuel(sp_map_rest, 1);
                    reveal_with_fuel(sp_key_value, 1);
                }
                if !self.check(TokenKind::Comma) {
                    break;
                }
                let _ = self.consume(TokenKind::Comma);
                match self.key_value_expr() {
                    Ok(kv) => {
                        proof {
                            lemma_pairs_view_push(nodes@, kv);
                        }
                        nodes.push(kv);
                    },
                    Err(e) => {
                        failed = Some(e);
                        break;
                    },
                }
            }
            proof {
                reveal_with_fuel(sp_map_expr, 1);
                reveal_with_fuel(sp_key_value, 1);
                reveal_with_fuel(sp_map_rest, 1);
            }
            if let Some(e) = failed {
                return Err(e);
            }
            self.consume(TokenKind::Rbrace)?;
            Ok(Node::MapLiteral { location, values: nodes })
        }
    }

    /// `-` or `!` before a primary expression, or a primary expression.
    #[verifier::spinoff_prover]
    pub(super) fn unary_expr(&mut self) -> (r: Result<Node, Error>)
        requires
            old(self).inv(),
        ensures
            final(self).inv(),
            final(self).ctx() == old(self).ctx(),
            old(self).pos() <= final(self).pos(),
            sp_unary(old(self).ctx(), old(self).pos()) == node_out(r, final(self).pos()),
            r is Ok ==> old(self).pos() < final(self).pos(),
        decreases old(self).ctx().toks.len() - old(self).pos(), 72int,
    {
        proof {
            reveal_with_fuel(sp_unary, 1);
            reveal_with_fuel(sp_primary, 1);
        }
        let tk = self.peek()?;
        if (tk.tk_type == TokenKind::Op && str_equals(tk.value.as_str(), "-")) || tk.tk_type == TokenKind::Bang {
            let op = self.consume(tk.tk_type)?;
            let value = self.primary_expr()?;
            Ok(Node::Unary { op, value: Box::new(value) })
        } else {
            self.primary_expr()
        }
    }

    /// `op unary` repeated for `*`, `&`, `|`, `^`, `/` and `%`, grouping to the left.
    #[verifier::spinoff_prover]
    pub(super) fn multiplicative_rest(&mut self, left: Node) -> (r: Result<Node, Error>)
        requires
            old(self).inv(),
        ensures
            final(self).inv(),
            final(self).ctx() == old(self).ctx(),
            old(self).pos() <= final(self).pos(),
            sp_mul_rest(old(self).ctx(), old(self).pos(), left@) == node_out(r, final(self).pos()),
        decreases old(self).ctx().toks.len() - old(self).pos(), 73int,
    {
        proof {
            reveal_with_fuel(sp_mul_rest, 1);
            reveal_with_fuel(sp_unary, 1);
        }
        if self.check_op("*") || self.check_op("&") || self.check_op("|") || self.check_op("^") || self.check_op("/") || self.check_op("%") {
            let op = self.consume(TokenKind::Op)?;
            let right = self.unary_expr()?;
            self.multiplicative_rest(Node::Bin { left: Box::new(left), right: Box::new(right), op })
        } else {
            Ok(left)
        }
    }

    /// Multiplication-level binary operations.
    #[verifier::spinoff_prover]
    pub(super) fn multiplicative_expr(&mut self) -> (r: Result<Node, Error>)
        requires
            old(self).inv(),
        ensures
            final(self).inv(),
            final(self).ctx() == old(self).ctx(),
            old(self).pos() <= final(self).pos(),
            sp_multiplicative(old(self).ctx(), old(self).pos()) == node_out(r, final(self).pos()),
            r is Ok ==> old(self).pos() < final(self).pos(),
        decreases old(self).ctx().toks.len() - old(self).pos(), 74int,
    {
        proof {
            reveal_with_fuel(sp_multiplicative, 1);
            reveal_with_fuel(sp_mul_rest, 1);
            reveal_with_fuel(sp_unary, 1);
        }
        let left = self.unary_expr()?;
        self.multiplicative_rest(left)
    }

    /// `op multiplicative` repeated for `+` and `-`, grouping to the left.
    #[verifier::spinoff_prover]
    pub(super) fn additive_rest(&mut self, left: Node) -> (r: Result<Node, Error>)
        requires
            old(self).inv(),
        ensures
            final(self).inv(),
            final(self).ctx() == old(self).ctx(),
            old(self).pos() <= final(self).pos(),
            sp_add_rest(old(self).ctx(), old(self).pos(), left@) == node_out(r, final(self).pos()),
        decreases old(self).ctx().toks.len() - old(self).pos(), 75int,
    {
        proof {
            reveal_with_fuel(sp_add_rest, 1);
            reveal_with_fuel(sp_multiplicative, 1);
        }
        if self.check_op("+") || self.check_op("-") {
            let op = self.consume(TokenKind::Op)?;
            let right = self.multiplicative_expr()?;
            self.additive_rest(Node::Bin { left: Box::new(left), right: Box::new(right), op })
        } else {
            Ok(left)
        }
    }

    /// Addition-level binary operations.
    #[verifier::spinoff_prover]
    pub(super) fn additive_expr(&mut self) -> (r: Result<Node, Error>)
        requires
            old(self).inv(),
        ensures
            final(self).inv(),
            final(self).ctx() == old(self).ctx(),
            old(self).pos() <= final(self).pos(),
            sp_additive(old(self).ctx(), old(self).pos()) == node_out(r, final(self).pos()),
            r is Ok ==> old(self).pos() < final(self).pos(),
        decreases old(self).ctx().toks.len() - old(self).pos(), 76int,
    {
        proof {
            reveal_with_fuel(sp_additive, 1);
            reveal_with_fuel(sp_add_rest, 1);
            reveal_with_fuel(sp_multiplicative, 1);
        }
        let left = self.multiplicative_expr()?;
        self.additive_rest(left)
    }

    /// `a .. b`, or an additive expression.
    #[verifier::spinoff_prover]
    pub(super) fn range_expr(&mut self) -> (r: Result<Node, Error>)
        requires
            old(self).inv(),
        ensures
            final(self).inv(),
            final(self).ctx() == old(self).ctx(),
            old(self).pos() <= final(self).pos(),
            sp_range(old(self).ctx(), old(self).pos()) == node_out(r, final(self).pos()),
            r is Ok ==> old(self).pos() < final(self).pos(),
        decreases old(self).ctx().toks.len() - old(self).pos(), 77int,
    {
        proof {
            reveal_with_fuel(sp_range, 1);
            reveal_with_fuel(sp_additive, 1);
        }
        let left = self.additive_expr()?;
        if self.check(TokenKind::Range) {
            let location = self.consume(TokenKind::Range)?;
            let right = self.additive_expr()?;
            Ok(Node::Range { location, from: Box::new(left), to: Box::new(right) })
        } else {
            Ok(left)
        }
    }

    /// `value impls Trait`, or a range expression.
    #[verifier::spinoff_prover]
    pub(super) fn impls_expr(&mut self) -> (r: Result<Node, Error>)
        requires
            old(self).inv(),
        ensures
            final(self).inv(),
            final(self).ctx() == old(self).ctx(),
            old(self).pos() <= final(self).pos(),
            sp_impls(old(self).ctx(), old(self).pos()) == node_out(r, final(self).pos()),
            r is Ok ==> old(self).pos() < final(self).pos(),
        decreases old(self).ctx().toks.len() - old(self).pos(), 78int,
    {
        proof {
            reveal_with_fuel(sp_impls, 1);
            reveal_with_fuel(sp_range, 1);
        }
        let left = self.range_expr()?;
        if self.check(TokenKind::Impls) {
            self.consume(TokenKind::Impls)?;
            let trait_name = self.consume(TokenKind::Id)?;
            Ok(Node::Impls { value: Box::new(left), trait_name })
        } else {
            Ok(left)
        }
    }

    /// One comparison `<`, `>`, `<=` or `>=`, or an impls expression.
    #[verifier::spinoff_prover]
    pub(super) fn compare_expr(&mut self) -> (r: Result<Node, Error>)
        requires
            old(self).inv(),
        ensures
            final(self).inv(),
            final(self).ctx() == old(self).ctx(),
            old(self).pos() <= final(self).pos(),
            sp_compare(old(self).ctx(), old(self).pos()) == node_out(r, final(self).pos()),
            r is Ok ==> old(self).pos() < final(self).pos(),
        decreases old(self).ctx().toks.len() - old(self).pos(), 79int,
    {
        proof {
            reveal_with_fuel(sp_compare, 1);
            reveal_with_fuel(sp_impls, 1);
        }
        let left = self.impls_expr()?;
        if self.check(TokenKind::Greater) || self.check(TokenKind::Less) || self.check(TokenKind::LessEq) || self.check(TokenKind::GreaterEq) {
            let op = self.peek()?;
            self.advance();
            let right = self.impls_expr()?;
            Ok(Node::Cond { left: Box::new(left), right: Box::new(right), op })
        } else {
            Ok(left)
        }
    }

    /// One `==` or `!=`, or a comparison.
    #[verifier::spinoff_prover]
    pub(super) fn equality_expr(&mut self) -> (r: Result<Node, Error>)
        requires
            old(self).inv(),
        ensures
            final(self).inv(),
            final(self).ctx() == old(self).ctx(),
            old(self).pos() <= final(self).pos(),
            sp_equality(old(self).ctx(), old(self).pos()) == node_out(r, final(self).pos()),
            r is Ok ==> old(self).pos() < final(self).pos(),
        decreases old(self).ctx().toks.len() - old(self).pos(), 80int,
    {
        proof {
            reveal_with_fuel(sp_equality, 1);
            reveal_with_fuel(sp_compare, 1);
        }
        let left = self.compare_expr()?;
        if self.check(TokenKind::Eq) || self.check(TokenKind::NotEq) {
            let op = self.peek()?;
            self.advance();
            let right = self.compare_expr()?;
            Ok(Node::Cond { left: Box::new(left), right: Box::new(right), op })
        } else {
            Ok(left)
        }
    }

    /// `and`/`or` followed by an equality, repeated, grouping to the left.
    #[verifier::spinoff_prover]
    pub(super) fn logical_rest(&mut self, left: Node) -> (r: Result<Node, Error>)
        requires
            old(self).inv(),
        ensures
            final(self).inv(),
            final(self).ctx() == old(self).ctx(),
            old(self).pos() <= final(self).pos(),
            sp_logical_rest(old(self).ctx(), old(self).pos(), left@) == node_out(r, final(self).pos()),
        decreases old(self).ctx().toks.len() - old(self).pos(), 81int,
    {
        proof {
            reveal_with_fuel(sp_logical_rest, 1);
            reveal_with_fuel(sp_equality, 1);
        }
        if self.check(TokenKind::And) || self.check(TokenKind::Or) {
            let op = self.peek()?;
            self.advance();
            let right = self.equality_expr()?;
            self.logical_rest(Node::Logical { left: Box::new(left), right: Box::new(right), op })
        } else {
            Ok(left)
        }
    }

    /// Logical expressions.
    #[verifier::spinoff_prover]
    pub(super) fn logical_expr(&mut self) -> (r: Result<Node, Error>)
        requires
            old(self).inv(),
        ensures
            final(self).inv(),
            final(self).ctx() == old(self).ctx(),
            old(self).pos() <= final(self).pos(),
            sp_logical(old(self).ctx(), old(self).pos()) == node_out(r, final(self).pos()),
            r is Ok ==> old(self).pos() < final(self).pos(),
        decreases old(self).ctx().toks.len() - old(self).pos(), 82int,
    {
        proof {
            reveal_with_fuel(sp_logical, 1);
            reveal_with_fuel(sp_equality, 1);
            reveal_with_fuel(sp_logical_rest, 1);
        }
        let left = self.equality_expr()?;
        self.logical_rest(left)
    }

    /// An expression.
    #[verifier::spinoff_prover]
    pub(super) fn expr(&mut self) -> (r: Result<Node, Error>)
        requires
            old(self).inv(),
        ensures
            final(self).inv(),
            final(self).ctx() == old(self).ctx(),
            old(self).pos() <= final(self).pos(),
            sp_expr(old(self).ctx(), old(self).pos()) == node_out(r, final(self).pos()),
            r is Ok ==> old(self).pos() < final(self).pos(),
        decreases old(self).ctx().toks.len() - old(self).pos(), 83int,
    {
        proof {
            reveal_with_fuel(sp_expr, 1);
            reveal_with_fuel(sp_logical, 1);
        }
        self.logical_expr()
    }

}

} // verus!

