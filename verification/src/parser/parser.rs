mod expr;
mod stmt;

use vstd::prelude::*;
use vstd::string::*;
use crate::errors::errors::{Error, ErrorView};
use crate::lexer::address::Address;
use crate::lexer::lexer::{Token, TokenKind, TokenView, tokens_view};
use crate::parser::ast::{opt_node_view, lemma_nodes_view_push, lemma_imports_view_push, lemma_tokens_view_push, Node, NodeView, nodes_view, imports_view};
use crate::parser::import::{Import, ImportView};
use crate::text::{str_equals, string_of};
use crate::parser::grammar::{ParseCtx, eof_error, kind_debug, sp_check, sp_at_end, sp_peek, sp_consume, full_name_of, sp_params_rest, sp_params, sp_opt_params, sp_native, sp_single_import, sp_import_rest, sp_import_stmt, sp_impls_rest, sp_type_impls, match_lambda, sp_block, spec_parse, node_out, tok_out, toks_out};

verus! {

/// The `{:?}` text of a token kind.
pub fn kind_name(k: TokenKind) -> (r: &'static str)
    ensures
        r@ == kind_debug(k),
{
    match k {
        TokenKind::Fn => "Fn",
        TokenKind::Op => "Op",
        TokenKind::Lparen => "Lparen",
        TokenKind::Rparen => "Rparen",
        TokenKind::Lbrace => "Lbrace",
        TokenKind::Rbrace => "Rbrace",
        TokenKind::Lambda => "Lambda",
        TokenKind::Walrus => "Walrus",
        TokenKind::Eq => "Eq",
        TokenKind::NotEq => "NotEq",
        TokenKind::Text => "Text",
        TokenKind::Number => "Number",
        TokenKind::Assign => "Assign",
        TokenKind::Id => "Id",
        TokenKind::Comma => "Comma",
        TokenKind::Ret => "Ret",
        TokenKind::If => "If",
        TokenKind::Bool => "Bool",
        TokenKind::While => "While",
        TokenKind::Type => "Type",
        TokenKind::New => "New",
        TokenKind::Dot => "Dot",
        TokenKind::Greater => "Greater",
        TokenKind::Less => "Less",
        TokenKind::GreaterEq => "GreaterEq",
        TokenKind::LessEq => "LessEq",
        TokenKind::Null => "Null",
        TokenKind::Elif => "Elif",
        TokenKind::Else => "Else",
        TokenKind::And => "And",
        TokenKind::Or => "Or",
        TokenKind::Import => "Import",
        TokenKind::AssignAdd => "AssignAdd",
        TokenKind::AssignSub => "AssignSub",
        TokenKind::AssignMul => "AssignMul",
        TokenKind::AssignDiv => "AssignDiv",
        TokenKind::Break => "Break",
        TokenKind::AssignAnd => "AssignAnd",
        TokenKind::AssignOr => "AssignOr",
        TokenKind::AssignXor => "AssignXor",
        TokenKind::Match => "Match",
        TokenKind::Case => "Case",
        TokenKind::Default => "Default",
        TokenKind::Lbracket => "Lbracket",
        TokenKind::Rbracket => "Rbracket",
        TokenKind::Colon => "Colon",
        TokenKind::For => "For",
        TokenKind::Bang => "Bang",
        TokenKind::In => "In",
        TokenKind::Continue => "Continue",
        TokenKind::Arrow => "Arrow",
        TokenKind::Unit => "Unit",
        TokenKind::Native => "Native",
        TokenKind::With => "With",
        TokenKind::Trait => "Trait",
        TokenKind::Impl => "Impl",
        TokenKind::Question => "Question",
        TokenKind::Impls => "Impls",
        TokenKind::Range => "Range",
    }
}

/// Builds the tokens of a file into a syntax tree.
pub struct Parser {
    tokens: Vec<Token>,
    current: usize,
    file_path: String,
    full_name_prefix: String,
}

impl Parser {
    /// What the grammar reads.
    pub closed spec fn ctx(&self) -> ParseCtx {
        ParseCtx { toks: tokens_view(self.tokens@), file: self.file_path, prefix: self.full_name_prefix@ }
    }

    /// The index of the next token.
    pub closed spec fn pos(&self) -> int {
        self.current as int
    }

    /// The position lies within the tokens or just after them.
    pub closed spec fn inv(&self) -> bool {
        self.current <= self.tokens@.len()
    }

    /// A parser at the first of `tokens`; `file_path` names the file in
    /// end-of-input errors, `full_name_prefix` prefixes declared full names.
    pub fn new(tokens: Vec<Token>, file_path: String, full_name_prefix: String) -> (r: Self)
        ensures
            r.ctx() == (ParseCtx { toks: tokens_view(tokens@), file: file_path, prefix: full_name_prefix@ }),
            r.pos() == 0,
            r.inv(),
    {
        Parser { tokens, current: 0, file_path, full_name_prefix }
    }

    /// The error for running out of tokens.
    fn eof(&self) -> (r: Error)
        ensures
            r@ == eof_error(self.ctx()),
    {
        Error::new(Address::new(0, 0, self.file_path.clone()), "unexpected eof", "check your code.")
    }

    /// Reads a token of kind `tk_type`; a token of another kind is an error
    /// (and is stepped over).
    fn consume(&mut self, tk_type: TokenKind) -> (r: Result<Token, Error>)
        requires
            old(self).inv(),
        ensures
            final(self).inv(),
            final(self).ctx() == old(self).ctx(),
            sp_consume(old(self).ctx(), old(self).pos(), tk_type) == tok_out(r, final(self).pos()),
            final(self).pos() == if old(self).pos() < old(self).ctx().toks.len() { old(self).pos() + 1 } else { old(self).pos() },
    {
        if self.current < self.tokens.len() {
            let tk = self.tokens[self.current].clone();
            self.current = self.current + 1;
            if tk.tk_type == tk_type {
                Ok(tk)
            } else {
                let mut text = string_of("unexpected token: '");
                text.append(kind_name(tk.tk_type));
                text.append(":");
                text.append(tk.value.as_str());
                text.append("', expected: '");
                text.append(kind_name(tk_type));
                text.append("'");
                proof {
                    assert(text@ =~= "unexpected token: '"@ + kind_debug(tk@.tk_type) + ":"@ + tk@.value + "', expected: '"@ + kind_debug(tk_type) + "'"@);
                }
                Err(Error::own_text(tk.address.clone(), text, "check your code."))
            }
        } else {
            Err(self.eof())
        }
    }

    /// Steps over the next token.
    fn advance(&mut self)
        requires
            old(self).inv(),
            old(self).pos() < old(self).ctx().toks.len(),
        ensures
            final(self).inv(),
            final(self).ctx() == old(self).ctx(),
            final(self).pos() == old(self).pos() + 1,
    {
        let n: usize = self.tokens.len();
        if self.current < n {
            self.current = self.current + 1;
        }
    }

    /// Whether the next token has kind `tk_type`.
    fn check(&self, tk_type: TokenKind) -> (r: bool)
        ensures
            r == sp_check(self.ctx(), self.pos(), tk_type),
    {
        if self.current < self.tokens.len() {
            self.tokens[self.current].tk_type == tk_type
        } else {
            false
        }
    }

    /// Whether the next token is an operator with the text `op`.
    fn check_op(&self, op: &str) -> (r: bool)
        ensures
            r == (sp_check(self.ctx(), self.pos(), TokenKind::Op) && self.ctx().toks[self.pos()].value == op@),
    {
        if self.current < self.tokens.len() {
            self.tokens[self.current].tk_type == TokenKind::Op && str_equals(self.tokens[self.current].value.as_str(), op)
        } else {
            false
        }
    }

    /// The next token.
    fn peek(&self) -> (r: Result<Token, Error>)
        ensures
            match r {
                Ok(t) => sp_peek(self.ctx(), self.pos()) == Ok::<TokenView, ErrorView>(t@),
                Err(e) => sp_peek(self.ctx(), self.pos()) == Err::<TokenView, ErrorView>(e@),
            },
    {
        if self.current < self.tokens.len() {
            Ok(self.tokens[self.current].clone())
        } else {
            Err(self.eof())
        }
    }

    /// Whether all tokens have been read.
    fn is_at_end(&self) -> (r: bool)
        ensures
            r == sp_at_end(self.ctx(), self.pos()),
    {
        self.current >= self.tokens.len()
    }

    /// The full name `prefix:name` of a declared name.
    fn to_full_name(&self, tk: Token) -> (r: Token)
        ensures
            r@ == full_name_of(self.ctx(), tk@),
    {
        let mut value = self.full_name_prefix.clone();
        value.append(":");
        value.append(tk.value.as_str());
        Token::new(TokenKind::Text, value, tk.address)
    }

    /// `( id, id, ... )`
    fn params(&mut self) -> (r: Result<Vec<Token>, Error>)
        requires
            old(self).inv(),
        ensures
            final(self).inv(),
            final(self).ctx() == old(self).ctx(),
            old(self).pos() <= final(self).pos(),
            sp_params(old(self).ctx(), old(self).pos()) == toks_out(r, final(self).pos()),
            r is Ok ==> old(self).pos() < final(self).pos(),
    {
        let ghost c = self.ctx();
        let mut nodes: Vec<Token> = Vec::new();
        self.consume(TokenKind::Lparen)?;
        if !self.check(TokenKind::Rparen) {
            let first = self.consume(TokenKind::Id)?;
            proof {
                lemma_tokens_view_push(nodes@, first);
            }
            nodes.push(first);
            proof {
                assert(tokens_view(nodes@) =~= seq![first@]);
            }
            let ghost p2 = self.pos();
            let mut failed: Option<Error> = None;
            while !self.is_at_end() && self.check(TokenKind::Comma)
                invariant_except_break
                    sp_params_rest(c, self.pos(), tokens_view(nodes@)) == sp_params_rest(c, p2, seq![first@]),
                    failed is None,
                invariant
                    self.inv(),
                    self.ctx() == c,
                    self.pos() >= p2,
                ensures
                    match failed {
                        Some(e) => sp_params_rest(c, p2, seq![first@]) == Err::<(Seq<TokenView>, int), ErrorView>(e@),
                        None => sp_params_rest(c, p2, seq![first@]) == Ok::<(Seq<TokenView>, int), ErrorView>((tokens_view(nodes@), self.pos())),
                    },
                decreases self.tokens@.len() - self.current,
            {
                let _ = self.consume(TokenKind::Comma);
                match self.consume(TokenKind::Id) {
                    Ok(t) => {
                        proof {
                            lemma_tokens_view_push(nodes@, t);
                        }
                        nodes.push(t);
                    },
                    Err(e) => {
                        failed = Some(e);
                        break;
                    },
                }
            }
            if let Some(e) = failed {
                return Err(e);
            }
        } else {
            proof {
                assert(tokens_view(nodes@) =~= Seq::<TokenView>::empty());
            }
        }
        self.consume(TokenKind::Rparen)?;
        Ok(nodes)
    }

    /// Parameters when an opening parenthesis follows, none otherwise.
    fn opt_params(&mut self) -> (r: Result<Vec<Token>, Error>)
        requires
            old(self).inv(),
        ensures
            final(self).inv(),
            final(self).ctx() == old(self).ctx(),
            old(self).pos() <= final(self).pos(),
            sp_opt_params(old(self).ctx(), old(self).pos()) == toks_out(r, final(self).pos()),
            r is Ok ==> old(self).pos() <= final(self).pos(),
    {
        if self.check(TokenKind::Lparen) {
            self.params()
        } else {
            let v: Vec<Token> = Vec::new();
            proof {
                assert(tokens_view(v@) =~= Seq::<TokenView>::empty());
            }
            Ok(v)
        }
    }

    // определение нативной функции
    fn native_stmt(&mut self) -> (r: Result<Node, Error>)
        requires
            old(self).inv(),
        ensures
            final(self).inv(),
            final(self).ctx() == old(self).ctx(),
            old(self).pos() <= final(self).pos(),
            sp_native(old(self).ctx(), old(self).pos()) == node_out(r, final(self).pos()),
            r is Ok ==> old(self).pos() < final(self).pos(),
    {
        self.consume(TokenKind::Native)?;
        let name = self.consume(TokenKind::Id)?;
        self.consume(TokenKind::Arrow)?;
        let fn_name = self.consume(TokenKind::Text)?;
        Ok(Node::Native { name, fn_name })
    }

    // один import
    fn single_import(&mut self) -> (r: Result<Import, Error>)
        requires
            old(self).inv(),
        ensures
            final(self).inv(),
            final(self).ctx() == old(self).ctx(),
            match r {
                Ok(i) => sp_single_import(old(self).ctx(), old(self).pos()) == Ok::<(ImportView, int), ErrorView>((i@, final(self).pos())),
                Err(e) => sp_single_import(old(self).ctx(), old(self).pos()) == Err::<(ImportView, int), ErrorView>(e@),
            },
            r is Ok ==> old(self).pos() < final(self).pos(),
            old(self).pos() <= final(self).pos(),
    {
        let name = self.consume(TokenKind::Text)?;
        if self.check(TokenKind::With) {
            self.consume(TokenKind::With)?;
            let full = self.consume(TokenKind::Text)?;
            Ok(Import::new(Some(name.address), name.value, Some(full.value)))
        } else {
            Ok(Import::new(Some(name.address), name.value, None))
        }
    }

    // стейтмент импорт
    fn import_stmt(&mut self) -> (r: Result<Node, Error>)
        requires
            old(self).inv(),
        ensures
            final(self).inv(),
            final(self).ctx() == old(self).ctx(),
            old(self).pos() <= final(self).pos(),
            sp_import_stmt(old(self).ctx(), old(self).pos()) == node_out(r, final(self).pos()),
            r is Ok ==> old(self).pos() < final(self).pos(),
    {
        let ghost c = self.ctx();
        let location = self.consume(TokenKind::Import)?;
        let mut imports: Vec<Import> = Vec::new();
        if self.check(TokenKind::Lparen) {
            self.consume(TokenKind::Lparen)?;
            let first = self.single_import()?;
            proof {
                lemma_imports_view_push(imports@, first);
            }
            imports.push(first);
            proof {
                assert(imports_view(imports@) =~= seq![first@]);
            }
            let ghost p2 = self.pos();
            let mut failed: Option<Error> = None;
            while self.check(TokenKind::Comma)
                invariant_except_break
                    sp_import_rest(c, self.pos(), imports_view(imports@)) == sp_import_rest(c, p2, seq![first@]),
                    failed is None,
                invariant
                    self.inv(),
                    self.ctx() == c,
                    self.pos() >= p2,
                ensures
                    match failed {
                        Some(e) => sp_import_rest(c, p2, seq![first@]) == Err::<(Seq<ImportView>, int), ErrorView>(e@),
                        None => sp_import_rest(c, p2, seq![first@]) == Ok::<(Seq<ImportView>, int), ErrorView>((imports_view(imports@), self.pos())),
                    },
                decreases self.tokens@.len() - self.current,
            {
                let _ = self.consume(TokenKind::Comma);
                match self.single_import() {
                    Ok(i) => {
                        proof {
                            lemma_imports_view_push(imports@, i);
                        }
                        imports.push(i);
                    },
                    Err(e) => {
                        failed = Some(e);
                        break;
                    },
                }
            }
            if let Some(e) = failed {
                return Err(e);
            }
        } else {
            let i = self.single_import()?;
            proof {
                lemma_imports_view_push(imports@, i);
                assert(imports_view(imports@.push(i)) =~= seq![i@]);
            }
            imports.push(i);
        }
        Ok(Node::Import { location, imports })
    }

    /// The traits a type implements: `impl A, B` (possibly none), or nothing.
    fn type_impls(&mut self) -> (r: Result<Vec<Token>, Error>)
        requires
            old(self).inv(),
        ensures
            final(self).inv(),
            final(self).ctx() == old(self).ctx(),
            old(self).pos() <= final(self).pos(),
            sp_type_impls(old(self).ctx(), old(self).pos()) == toks_out(r, final(self).pos()),
            r is Ok ==> old(self).pos() <= final(self).pos(),
    {
        let ghost c = self.ctx();
        let mut impls: Vec<Token> = Vec::new();
        proof {
            assert(tokens_view(impls@) =~= Seq::<TokenView>::empty());
        }
        if self.check(TokenKind::Impl) {
            self.consume(TokenKind::Impl)?;
            if !self.check(TokenKind::Lbrace) {
                let first = self.consume(TokenKind::Id)?;
                proof {
                    lemma_tokens_view_push(impls@, first);
                }
                impls.push(first);
                proof {
                    assert(tokens_view(impls@) =~= seq![first@]);
                }
                let ghost p2 = self.pos();
                let mut failed: Option<Error> = None;
                while !self.is_at_end() && self.check(TokenKind::Comma)
                    invariant_except_break
                        sp_impls_rest(c, self.pos(), tokens_view(impls@)) == sp_impls_rest(c, p2, seq![first@]),
                        failed is None,
                    invariant
                        self.inv(),
                        self.ctx() == c,
                        self.pos() >= p2,
                    ensures
                        match failed {
                            Some(e) => sp_impls_rest(c, p2, seq![first@]) == Err::<(Seq<TokenView>, int), ErrorView>(e@),
                            None => sp_impls_rest(c, p2, seq![first@]) == Ok::<(Seq<TokenView>, int), ErrorView>((tokens_view(impls@), self.pos())),
                        },
                    decreases self.tokens@.len() - self.current,
                {
                    let _ = self.consume(TokenKind::Comma);
                    match self.consume(TokenKind::Id) {
                        Ok(t) => {
                            proof {
                                lemma_tokens_view_push(impls@, t);
                            }
                            impls.push(t);
                        },
                        Err(e) => {
                            failed = Some(e);
                            break;
                        },
                    }
                }
                if let Some(e) = failed {
                    return Err(e);
                }
            }
        }
        Ok(impls)
    }

    /// Parses the whole token list into a block of statements.
    pub fn parse(&mut self) -> (r: Result<Node, Error>)
        requires
            old(self).inv(),
        ensures
            final(self).inv(),
            final(self).ctx() == old(self).ctx(),
            sp_block(old(self).ctx(), old(self).pos()) == node_out(r, final(self).pos()),
            old(self).pos() == 0 ==> match r {
                Ok(n) => spec_parse(old(self).ctx()) == Ok::<NodeView, ErrorView>(n@),
                Err(e) => spec_parse(old(self).ctx()) == Err::<NodeView, ErrorView>(e@),
            },
    {
        proof {
            reveal_with_fuel(sp_block, 1);
        }
        self.block()
    }
}

/// The body a braced `match` case gets: a local function defined and called at once.
fn make_lambda(location: &Token, body: Node) -> (r: Node)
    ensures
        r@ == match_lambda(location@, body@),
{
    let ghost name_view = TokenView { tk_type: TokenKind::Id, value: "@match_lambda"@, address: location@.address };
    let ghost body_view = body@;
    let name = Token::new(TokenKind::Id, string_of("@match_lambda"), location.address.clone());
    let call_name = Token::new(TokenKind::Id, string_of("@match_lambda"), location.address.clone());
    let func = Node::AnFnDeclaration { location: location.clone(), params: Vec::new(), body: Box::new(body), make_closure: false };
    proof {
        assert(tokens_view(Seq::<Token>::empty()) =~= Seq::<TokenView>::empty());
        assert(nodes_view(Seq::<Node>::empty()) =~= Seq::<NodeView>::empty());
        assert(func@ == NodeView::AnFnDeclaration { location: location@, params: Seq::empty(), body: Box::new(body_view), make_closure: false });
    }
    let ghost func_view = func@;
    let define = Node::Define { previous: None, name, value: Box::new(func) };
    proof {
        assert(opt_node_view(None) == None::<Box<NodeView>>);
        assert(define@ == NodeView::Define { previous: None, name: name_view, value: Box::new(func_view) });
    }
    let call = Node::Call { previous: None, name: call_name, args: Vec::new(), should_push: true };
    proof {
        assert(call@ == NodeView::Call { previous: None, name: name_view, args: Seq::empty(), should_push: true });
    }
    let ghost define_view = define@;
    let ghost call_view = call@;
    let mut items: Vec<Node> = Vec::new();
    proof {
        lemma_nodes_view_push(items@, define);
    }
    items.push(define);
    proof {
        lemma_nodes_view_push(items@, call);
    }
    items.push(call);
    proof {
        assert(nodes_view(items@) =~= seq![define_view, call_view]);
    }
    Node::Block { body: items }
}

} // verus!
