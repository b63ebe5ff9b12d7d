use vstd::prelude::*;
use vstd::string::*;
use crate::errors::errors::{Error, ErrorView, error_of};
use crate::lexer::address::Address;
use crate::lexer::lexer::{spec_lex, law_operator_tokens_are_spelled_as_read, Token, TokenKind, TokenView, tokens_view};
use crate::parser::ast::{MatchCaseView, Node, NodeView, TraitFnView, nodes_view, with_should_push};
use crate::parser::import::{Import, ImportView};
use crate::text::{debug_str};

verus! {

// ---------------------------------------------------------------------------
// The grammar, as recursive descent over the token sequence.
// ---------------------------------------------------------------------------

/// What the grammar reads: the tokens, the file name used for end-of-input
/// errors, and the prefix of full names.
pub struct ParseCtx {
    pub toks: Seq<TokenView>,
    pub file: String,
    pub prefix: Seq<char>,
}

/// A parse result: a value and the position after it, or an error.
pub type PRes<T> = Result<(T, int), ErrorView>;

/// The error for running out of tokens.
pub open spec fn eof_error(c: ParseCtx) -> ErrorView {
    error_of(Address { line: 0, column: 0, file: Some(c.file) }, "unexpected eof"@, "check your code."@)
}

/// The text of `{:?}` for a token kind: the variant's name.
pub open spec fn kind_debug(k: TokenKind) -> Seq<char> {
    match k {
        TokenKind::Fn => "Fn"@,
        TokenKind::Op => "Op"@,
        TokenKind::Lparen => "Lparen"@,
        TokenKind::Rparen => "Rparen"@,
        TokenKind::Lbrace => "Lbrace"@,
        TokenKind::Rbrace => "Rbrace"@,
        TokenKind::Lambda => "Lambda"@,
        TokenKind::Walrus => "Walrus"@,
        TokenKind::Eq => "Eq"@,
        TokenKind::NotEq => "NotEq"@,
        TokenKind::Text => "Text"@,
        TokenKind::Number => "Number"@,
        TokenKind::Assign => "Assign"@,
        TokenKind::Id => "Id"@,
        TokenKind::Comma => "Comma"@,
        TokenKind::Ret => "Ret"@,
        TokenKind::If => "If"@,
        TokenKind::Bool => "Bool"@,
        TokenKind::While => "While"@,
        TokenKind::Type => "Type"@,
        TokenKind::New => "New"@,
        TokenKind::Dot => "Dot"@,
        TokenKind::Greater => "Greater"@,
        TokenKind::Less => "Less"@,
        TokenKind::GreaterEq => "GreaterEq"@,
        TokenKind::LessEq => "LessEq"@,
        TokenKind::Null => "Null"@,
        TokenKind::Elif => "Elif"@,
        TokenKind::Else => "Else"@,
        TokenKind::And => "And"@,
        TokenKind::Or => "Or"@,
        TokenKind::Import => "Import"@,
        TokenKind::AssignAdd => "AssignAdd"@,
        TokenKind::AssignSub => "AssignSub"@,
        TokenKind::AssignMul => "AssignMul"@,
        TokenKind::AssignDiv => "AssignDiv"@,
        TokenKind::Break => "Break"@,
        TokenKind::AssignAnd => "AssignAnd"@,
        TokenKind::AssignOr => "AssignOr"@,
        TokenKind::AssignXor => "AssignXor"@,
        TokenKind::Match => "Match"@,
        TokenKind::Case => "Case"@,
        TokenKind::Default => "Default"@,
        TokenKind::Lbracket => "Lbracket"@,
        TokenKind::Rbracket => "Rbracket"@,
        TokenKind::Colon => "Colon"@,
        TokenKind::For => "For"@,
        TokenKind::Bang => "Bang"@,
        TokenKind::In => "In"@,
        TokenKind::Continue => "Continue"@,
        TokenKind::Arrow => "Arrow"@,
        TokenKind::Unit => "Unit"@,
        TokenKind::Native => "Native"@,
        TokenKind::With => "With"@,
        TokenKind::Trait => "Trait"@,
        TokenKind::Impl => "Impl"@,
        TokenKind::Question => "Question"@,
        TokenKind::Impls => "Impls"@,
        TokenKind::Range => "Range"@,
    }
}

/// The error for a token of the wrong kind.
pub open spec fn unexpected_error(t: TokenView, expected: TokenKind) -> ErrorView {
    error_of(
        t.address,
        "unexpected token: '"@ + kind_debug(t.tk_type) + ":"@ + t.value + "', expected: '"@ + kind_debug(expected) + "'"@,
        "check your code."@,
    )
}

/// The error for a token that cannot start an expression.
pub open spec fn invalid_token_error(t: TokenView) -> ErrorView {
    error_of(t.address, "invalid token. "@ + kind_debug(t.tk_type) + ":"@ + debug_str(t.value), "check your code."@)
}

/// The error for a token that cannot start a statement.
pub open spec fn unexpected_stmt_error(t: TokenView) -> ErrorView {
    error_of(t.address, "unexpected stmt token: "@ + kind_debug(t.tk_type) + ":"@ + t.value, "check your code."@)
}

/// The error for a statement not allowed in a type (`what` is `type`) or a unit.
pub open spec fn invalid_member_error(what: Seq<char>, t: TokenView) -> ErrorView {
    error_of(t.address, "invalid node for "@ + what + ": "@ + kind_debug(t.tk_type) + ":"@ + debug_str(t.value), "check your code."@)
}

/// The error for a case not followed by an arrow or a brace.
pub open spec fn case_error(location: TokenView) -> ErrorView {
    error_of(location.address, "expected arrow or brace after case value"@, "check your code"@)
}

pub open spec fn sp_check(c: ParseCtx, p: int, k: TokenKind) -> bool {
    0 <= p < c.toks.len() && c.toks[p].tk_type == k
}

pub open spec fn sp_at_end(c: ParseCtx, p: int) -> bool {
    p >= c.toks.len()
}

pub open spec fn sp_peek(c: ParseCtx, p: int) -> Result<TokenView, ErrorView> {
    if 0 <= p < c.toks.len() {
        Ok(c.toks[p])
    } else {
        Err(eof_error(c))
    }
}

/// Reads a token of kind `k`.
pub open spec fn sp_consume(c: ParseCtx, p: int, k: TokenKind) -> PRes<TokenView> {
    if 0 <= p < c.toks.len() {
        if c.toks[p].tk_type == k {
            Ok((c.toks[p], p + 1))
        } else {
            Err(unexpected_error(c.toks[p], k))
        }
    } else {
        Err(eof_error(c))
    }
}

/// The full name `prefix:name` of a declared name.
pub open spec fn full_name_of(c: ParseCtx, t: TokenView) -> TokenView {
    TokenView { tk_type: TokenKind::Text, value: c.prefix + ":"@ + t.value, address: t.address }
}

/// The rest of a parameter list: `, id` repeated.
pub open spec fn sp_params_rest(c: ParseCtx, p: int, acc: Seq<TokenView>) -> PRes<Seq<TokenView>>
    decreases c.toks.len() - p,
{
    if !sp_at_end(c, p) && sp_check(c, p, TokenKind::Comma) {
        match sp_consume(c, p + 1, TokenKind::Id) {
            Err(e) => Err(e),
            Ok((t, p2)) => sp_params_rest(c, p2, acc.push(t)),
        }
    } else {
        Ok((acc, p))
    }
}

/// `( id, id, ... )`
pub open spec fn sp_params(c: ParseCtx, p: int) -> PRes<Seq<TokenView>> {
    match sp_consume(c, p, TokenKind::Lparen) {
        Err(e) => Err(e),
        Ok((_, p1)) => {
            let r = if !sp_check(c, p1, TokenKind::Rparen) {
                match sp_consume(c, p1, TokenKind::Id) {
                    Err(e) => Err(e),
                    Ok((t, p2)) => sp_params_rest(c, p2, seq![t]),
                }
            } else {
                Ok((Seq::empty(), p1))
            };
            match r {
                Err(e) => Err(e),
                Ok((ps, p3)) => match sp_consume(c, p3, TokenKind::Rparen) {
                    Err(e) => Err(e),
                    Ok((_, p4)) => Ok((ps, p4)),
                },
            }
        },
    }
}

/// Parameters when an opening parenthesis follows, none otherwise.
pub open spec fn sp_opt_params(c: ParseCtx, p: int) -> PRes<Seq<TokenView>> {
    if sp_check(c, p, TokenKind::Lparen) {
        sp_params(c, p)
    } else {
        Ok((Seq::empty(), p))
    }
}

/// `native name -> 'fn_name'`
pub open spec fn sp_native(c: ParseCtx, p: int) -> PRes<NodeView> {
    match sp_consume(c, p, TokenKind::Native) {
        Err(e) => Err(e),
        Ok((_, p1)) => match sp_consume(c, p1, TokenKind::Id) {
            Err(e) => Err(e),
            Ok((name, p2)) => match sp_consume(c, p2, TokenKind::Arrow) {
                Err(e) => Err(e),
                Ok((_, p3)) => match sp_consume(c, p3, TokenKind::Text) {
                    Err(e) => Err(e),
                    Ok((fn_name, p4)) => Ok((NodeView::Native { name, fn_name }, p4)),
                },
            },
        },
    }
}

/// `'file'` or `'file' with 'full name'`
pub open spec fn sp_single_import(c: ParseCtx, p: int) -> PRes<ImportView> {
    match sp_consume(c, p, TokenKind::Text) {
        Err(e) => Err(e),
        Ok((name, p1)) => if sp_check(c, p1, TokenKind::With) {
            match sp_consume(c, p1 + 1, TokenKind::Text) {
                Err(e) => Err(e),
                Ok((full, p2)) => Ok((ImportView { addr: Some(name.address), file: name.value, full_name: Some(full.value) }, p2)),
            }
        } else {
            Ok((ImportView { addr: Some(name.address), file: name.value, full_name: None }, p1))
        },
    }
}

/// The rest of a parenthesised import list: `, import` repeated.
pub open spec fn sp_import_rest(c: ParseCtx, p: int, acc: Seq<ImportView>) -> PRes<Seq<ImportView>>
    decreases c.toks.len() - p,
{
    if sp_check(c, p, TokenKind::Comma) {
        match sp_single_import(c, p + 1) {
            Err(e) => Err(e),
            Ok((i, p2)) => if p < p2 {
                sp_import_rest(c, p2, acc.push(i))
            } else {
                Err(eof_error(c))
            },
        }
    } else {
        Ok((acc, p))
    }
}

/// `import 'a'` or `import ('a', 'b' with 'c', ...`
pub open spec fn sp_import_stmt(c: ParseCtx, p: int) -> PRes<NodeView> {
    match sp_consume(c, p, TokenKind::Import) {
        Err(e) => Err(e),
        Ok((location, p1)) => {
            let r = if sp_check(c, p1, TokenKind::Lparen) {
                match sp_single_import(c, p1 + 1) {
                    Err(e) => Err(e),
                    Ok((i, p2)) => sp_import_rest(c, p2, seq![i]),
                }
            } else {
                match sp_single_import(c, p1) {
                    Err(e) => Err(e),
                    Ok((i, p2)) => Ok((seq![i], p2)),
                }
            };
            match r {
                Err(e) => Err(e),
                Ok((imports, p3)) => Ok((NodeView::Import { location, imports }, p3)),
            }
        },
    }
}

/// The rest of an `impl` list: `, id` repeated.
pub open spec fn sp_impls_rest(c: ParseCtx, p: int, acc: Seq<TokenView>) -> PRes<Seq<TokenView>>
    decreases c.toks.len() - p,
{
    if !sp_at_end(c, p) && sp_check(c, p, TokenKind::Comma) {
        match sp_consume(c, p + 1, TokenKind::Id) {
            Err(e) => Err(e),
            Ok((t, p2)) => sp_impls_rest(c, p2, acc.push(t)),
        }
    } else {
        Ok((acc, p))
    }
}

/// The traits a type implements: `impl A, B` (possibly empty), or nothing.
pub open spec fn sp_type_impls(c: ParseCtx, p: int) -> PRes<Seq<TokenView>> {
    if sp_check(c, p, TokenKind::Impl) {
        if !sp_check(c, p + 1, TokenKind::Lbrace) {
            match sp_consume(c, p + 1, TokenKind::Id) {
                Err(e) => Err(e),
                Ok((t, p2)) => sp_impls_rest(c, p2, seq![t]),
            }
        } else {
            Ok((Seq::empty(), p + 1))
        }
    } else {
        Ok((Seq::empty(), p))
    }
}

/// A statement kept in a type or unit body: functions lose their full name
/// and closure flag; natives, reads, definitions and assignments stay.
pub open spec fn member_of(n: NodeView) -> Option<NodeView> {
    match n {
        NodeView::FnDeclaration { name, params, body, .. } => Some(NodeView::FnDeclaration { name, full_name: None, params, body, make_closure: false }),
        NodeView::Native { .. } => Some(n),
        NodeView::Get { .. } => Some(n),
        NodeView::Define { .. } => Some(n),
        NodeView::Assign { .. } => Some(n),
        _ => None,
    }
}

/// The body a `match` case or default gets when written in braces: a local
/// function defined and called at once.
pub open spec fn match_lambda(location: TokenView, body: NodeView) -> NodeView {
    let name = TokenView { tk_type: TokenKind::Id, value: "@match_lambda"@, address: location.address };
    NodeView::Block {
        body: seq![
            NodeView::Define {
                previous: None,
                name,
                value: Box::new(NodeView::AnFnDeclaration { location, params: Seq::empty(), body: Box::new(body), make_closure: false }),
            },
            NodeView::Call { previous: None, name, args: Seq::empty(), should_push: true },
        ],
    }
}

/// The node a compound assignment `x op= v` stands for: `x = x op v`.
pub open spec fn compound_assign(previous: Option<Box<NodeView>>, name: TokenView, location: TokenView, op: Seq<char>, value: NodeView) -> NodeView {
    NodeView::Assign {
        previous,
        name,
        value: Box::new(NodeView::Bin {
            left: Box::new(NodeView::Get { previous, name, should_push: true }),
            right: Box::new(value),
            op: TokenView { tk_type: TokenKind::Op, value: op, address: location.address },
        }),
    }
}

/// The operator text of a compound assignment token kind.
pub open spec fn compound_op(k: TokenKind) -> Seq<char> {
    match k {
        TokenKind::AssignSub => "-"@,
        TokenKind::AssignMul => "*"@,
        TokenKind::AssignDiv => "/"@,
        _ => "+"@,
    }
}

pub open spec fn is_compound_assign(k: TokenKind) -> bool {
    k == TokenKind::AssignAdd || k == TokenKind::AssignSub || k == TokenKind::AssignMul || k == TokenKind::AssignDiv
}

pub open spec fn is_mul_op(c: ParseCtx, p: int) -> bool {
    sp_check(c, p, TokenKind::Op) && {
        let v = c.toks[p].value;
        v == "*"@ || v == "&"@ || v == "|"@ || v == "^"@ || v == "/"@ || v == "%"@
    }
}

pub open spec fn is_add_op(c: ParseCtx, p: int) -> bool {
    sp_check(c, p, TokenKind::Op) && (c.toks[p].value == "+"@ || c.toks[p].value == "-"@)
}

pub open spec fn is_unary_op(t: TokenView) -> bool {
    (t.tk_type == TokenKind::Op && t.value == "-"@) || t.tk_type == TokenKind::Bang
}

pub open spec fn is_compare_op(c: ParseCtx, p: int) -> bool {
    sp_check(c, p, TokenKind::Greater) || sp_check(c, p, TokenKind::Less) || sp_check(c, p, TokenKind::LessEq) || sp_check(c, p, TokenKind::GreaterEq)
}

pub open spec fn is_equality_op(c: ParseCtx, p: int) -> bool {
    sp_check(c, p, TokenKind::Eq) || sp_check(c, p, TokenKind::NotEq)
}

pub open spec fn is_logical_op(c: ParseCtx, p: int) -> bool {
    sp_check(c, p, TokenKind::And) || sp_check(c, p, TokenKind::Or)
}

// The recursive part of the grammar. Each rule takes the position where it
// starts; the `decreases` measure is the number of tokens left and then the
// rule's rank, which falls along every call made without reading a token.
// Calls at positions returned by other rules are guarded by the progress
// that every rule makes (the parser proves each guard holds).

#[verifier::opaque]
pub open spec fn sp_block_items(c: ParseCtx, p: int, acc: Seq<NodeView>) -> PRes<NodeView>
    decreases c.toks.len() - p, 99int,
{
    if sp_at_end(c, p) || sp_check(c, p, TokenKind::Rbrace) {
        Ok((NodeView::Block { body: acc }, p))
    } else {
        match sp_statement(c, p) {
            Err(e) => Err(e),
            Ok((n, p1)) => if p < p1 <= c.toks.len() {
                sp_block_items(c, p1, acc.push(n))
            } else {
                Err(eof_error(c))
            },
        }
    }
}

/// Statements up to a closing brace or the end of the tokens.
#[verifier::opaque]
pub open spec fn sp_block(c: ParseCtx, p: int) -> PRes<NodeView>
    decreases c.toks.len() - p, 100int,
{
    sp_block_items(c, p, Seq::empty())
}

#[verifier::opaque]
pub open spec fn sp_statement(c: ParseCtx, p: int) -> PRes<NodeView>
    decreases c.toks.len() - p, 98int,
{
    match sp_peek(c, p) {
        Err(e) => Err(e),
        Ok(t) => match t.tk_type {
            TokenKind::Type => sp_type_stmt(c, p),
            TokenKind::Unit => sp_unit_stmt(c, p),
            TokenKind::If => sp_if_stmt(c, p),
            TokenKind::New => sp_access_stmt(c, p),
            TokenKind::Id => sp_access_stmt(c, p),
            TokenKind::Match => sp_match_stmt(c, p),
            TokenKind::Continue => match sp_consume(c, p, TokenKind::Continue) {
                Err(e) => Err(e),
                Ok((location, p1)) => Ok((NodeView::Continue { location }, p1)),
            },
            TokenKind::Break => match sp_consume(c, p, TokenKind::Break) {
                Err(e) => Err(e),
                Ok((location, p1)) => Ok((NodeView::Break { location }, p1)),
            },
            TokenKind::Ret => sp_return_stmt(c, p),
            TokenKind::Fn => sp_function_stmt(c, p),
            TokenKind::Native => sp_native(c, p),
            TokenKind::Import => sp_import_stmt(c, p),
            TokenKind::For => sp_for_stmt(c, p),
            TokenKind::While => sp_while_stmt(c, p),
            TokenKind::Trait => sp_trait_stmt(c, p),
            _ => Err(unexpected_stmt_error(t)),
        },
    }
}

/// The statements of a type or unit body (`what` names which, for errors).
#[verifier::opaque]
pub open spec fn sp_member_items(c: ParseCtx, p: int, acc: Seq<NodeView>, what: Seq<char>) -> PRes<Seq<NodeView>>
    decreases c.toks.len() - p, 99int,
{
    if sp_at_end(c, p) || sp_check(c, p, TokenKind::Rbrace) {
        Ok((acc, p))
    } else {
        match sp_statement(c, p) {
            Err(e) => Err(e),
            Ok((n, p1)) => match member_of(n) {
                None => Err(invalid_member_error(what, c.toks[p])),
                Some(m) => if p < p1 <= c.toks.len() {
                    sp_member_items(c, p1, acc.push(m), what)
                } else {
                    Err(eof_error(c))
                },
            },
        }
    }
}

#[verifier::opaque]
pub open spec fn sp_type_stmt(c: ParseCtx, p: int) -> PRes<NodeView>
    decreases c.toks.len() - p, 90int,
{
    match sp_consume(c, p, TokenKind::Type) {
        Err(e) => Err(e),
        Ok((_, p1)) => match sp_consume(c, p1, TokenKind::Id) {
            Err(e) => Err(e),
            Ok((name, p2)) => match sp_opt_params(c, p2) {
                Err(e) => Err(e),
                Ok((constructor, p3)) => match sp_type_impls(c, p3) {
                    Err(e) => Err(e),
                    Ok((impls, p4)) => match sp_consume(c, p4, TokenKind::Lbrace) {
                        Err(e) => Err(e),
                        Ok((_, p5)) => if p < p5 <= c.toks.len() {
                            match sp_member_items(c, p5, Seq::empty(), "type"@) {
                                Err(e) => Err(e),
                                Ok((body, p6)) => match sp_consume(c, p6, TokenKind::Rbrace) {
                                    Err(e) => Err(e),
                                    Ok((_, p7)) => Ok((
                                        NodeView::Type {
                                            name,
                                            full_name: Some(full_name_of(c, name)),
                                            constructor,
                                            body: Box::new(NodeView::Block { body }),
                                            impls,
                                        },
                                        p7,
                                    )),
                                },
                            }
                        } else {
                            Err(eof_error(c))
                        },
                    },
                },
            },
        },
    }
}

#[verifier::opaque]
pub open spec fn sp_unit_stmt(c: ParseCtx, p: int) -> PRes<NodeView>
    decreases c.toks.len() - p, 90int,
{
    match sp_consume(c, p, TokenKind::Unit) {
        Err(e) => Err(e),
        Ok((_, p1)) => match sp_consume(c, p1, TokenKind::Id) {
            Err(e) => Err(e),
            Ok((name, p2)) => match sp_consume(c, p2, TokenKind::Lbrace) {
                Err(e) => Err(e),
                Ok((_, p3)) => match sp_member_items(c, p3, Seq::empty(), "unit"@) {
                    Err(e) => Err(e),
                    Ok((body, p4)) => match sp_consume(c, p4, TokenKind::Rbrace) {
                        Err(e) => Err(e),
                        Ok((_, p5)) => Ok((
                            NodeView::Unit { name, full_name: Some(full_name_of(c, name)), body: Box::new(NodeView::Block { body }) },
                            p5,
                        )),
                    },
                },
            },
        },
    }
}

/// The `{ block }` after a condition, then what follows the `if` or `elif`.
#[verifier::opaque]
pub open spec fn sp_if_tail(c: ParseCtx, p: int, location: TokenView, logical: NodeView) -> PRes<NodeView>
    decreases c.toks.len() - p, 91int,
{
    match sp_consume(c, p, TokenKind::Lbrace) {
        Err(e) => Err(e),
        Ok((_, p1)) => match sp_block(c, p1) {
            Err(e) => Err(e),
            Ok((body, p2)) => match sp_consume(c, p2, TokenKind::Rbrace) {
                Err(e) => Err(e),
                Ok((_, p3)) => if sp_check(c, p3, TokenKind::Elif) {
                    if p < p3 <= c.toks.len() {
                        match sp_elif_stmt(c, p3) {
                            Err(e) => Err(e),
                            Ok((e, p4)) => Ok((NodeView::If { location, logical: Box::new(logical), body: Box::new(body), elseif: Some(Box::new(e)) }, p4)),
                        }
                    } else {
                        Err(eof_error(c))
                    }
                } else if sp_check(c, p3, TokenKind::Else) {
                    if p < p3 <= c.toks.len() {
                        match sp_else_stmt(c, p3) {
                            Err(e) => Err(e),
                            Ok((e, p4)) => Ok((NodeView::If { location, logical: Box::new(logical), body: Box::new(body), elseif: Some(Box::new(e)) }, p4)),
                        }
                    } else {
                        Err(eof_error(c))
                    }
                } else {
                    Ok((NodeView::If { location, logical: Box::new(logical), body: Box::new(body), elseif: None }, p3))
                },
            },
        },
    }
}

#[verifier::opaque]
pub open spec fn sp_if_stmt(c: ParseCtx, p: int) -> PRes<NodeView>
    decreases c.toks.len() - p, 92int,
{
    match sp_consume(c, p, TokenKind::If) {
        Err(e) => Err(e),
        Ok((location, p1)) => match sp_expr(c, p1) {
            Err(e) => Err(e),
            Ok((logical, p2)) => if p < p2 <= c.toks.len() {
                sp_if_tail(c, p2, location, logical)
            } else {
                Err(eof_error(c))
            },
        },
    }
}

#[verifier::opaque]
pub open spec fn sp_elif_stmt(c: ParseCtx, p: int) -> PRes<NodeView>
    decreases c.toks.len() - p, 92int,
{
    match sp_consume(c, p, TokenKind::Elif) {
        Err(e) => Err(e),
        Ok((location, p1)) => match sp_expr(c, p1) {
            Err(e) => Err(e),
            Ok((logical, p2)) => if p < p2 <= c.toks.len() {
                sp_if_tail(c, p2, location, logical)
            } else {
                Err(eof_error(c))
            },
        },
    }
}

/// `else { ... }` as an `if` whose condition is the literal `true`.
#[verifier::opaque]
pub open spec fn sp_else_stmt(c: ParseCtx, p: int) -> PRes<NodeView>
    decreases c.toks.len() - p, 92int,
{
    match sp_consume(c, p, TokenKind::Else) {
        Err(e) => Err(e),
        Ok((location, p1)) => match sp_consume(c, p1, TokenKind::Lbrace) {
            Err(e) => Err(e),
            Ok((_, p2)) => match sp_block(c, p2) {
                Err(e) => Err(e),
                Ok((body, p3)) => match sp_consume(c, p3, TokenKind::Rbrace) {
                    Err(e) => Err(e),
                    Ok((_, p4)) => Ok((
                        NodeView::If {
                            location,
                            logical: Box::new(NodeView::Bool { value: TokenView { tk_type: TokenKind::Bool, value: "true"@, address: location.address } }),
                            body: Box::new(body),
                            elseif: None,
                        },
                        p4,
                    )),
                },
            },
        },
    }
}

#[verifier::opaque]
pub open spec fn sp_access_stmt(c: ParseCtx, p: int) -> PRes<NodeView>
    decreases c.toks.len() - p, 90int,
{
    if sp_check(c, p, TokenKind::New) {
        sp_access(c, p, false)
    } else {
        sp_error_propagation(c, p, false)
    }
}

#[verifier::opaque]
pub open spec fn sp_access_expr(c: ParseCtx, p: int) -> PRes<NodeView>
    decreases c.toks.len() - p, 70int,
{
    if sp_check(c, p, TokenKind::New) {
        sp_access(c, p, true)
    } else {
        sp_error_propagation(c, p, true)
    }
}

#[verifier::opaque]
pub open spec fn sp_error_propagation(c: ParseCtx, p: int, is_expr: bool) -> PRes<NodeView>
    decreases c.toks.len() - p, 60int,
{
    match sp_access(c, p, is_expr) {
        Err(e) => Err(e),
        Ok((node, p1)) => if sp_check(c, p1, TokenKind::Question) {
            Ok((NodeView::ErrorPropagation { location: c.toks[p1], value: Box::new(node), should_push: is_expr }, p1 + 1))
        } else {
            Ok((node, p1))
        },
    }
}

#[verifier::opaque]
pub open spec fn sp_access(c: ParseCtx, p: int, is_expr: bool) -> PRes<NodeView>
    decreases c.toks.len() - p, 50int,
{
    match sp_access_part(c, p, None) {
        Err(e) => Err(e),
        Ok((left, p1)) => if p < p1 <= c.toks.len() {
            match sp_access_rest(c, p1, left, is_expr) {
                Err(e) => Err(e),
                Ok((l, p2)) => Ok((with_should_push(l, is_expr), p2)),
            }
        } else {
            Err(eof_error(c))
        },
    }
}

/// `. part` repeated after the first part of an access chain.
#[verifier::opaque]
pub open spec fn sp_access_rest(c: ParseCtx, p: int, left: NodeView, is_expr: bool) -> PRes<NodeView>
    decreases c.toks.len() - p, 50int,
{
    if sp_check(c, p, TokenKind::Dot) {
        match sp_peek(c, p + 1) {
            Err(e) => Err(e),
            Ok(loc) => match sp_access_part(c, p + 1, Some(Box::new(left))) {
                Err(e) => Err(e),
                Ok((l2, p2)) => if is_expr && l2 is Define {
                    Err(error_of(loc.address, "couldn't use define in expr."@, "check your code."@))
                } else if is_expr && l2 is Assign {
                    Err(error_of(loc.address, "couldn't use assign in expr."@, "check your code."@))
                } else if p < p2 <= c.toks.len() {
                    sp_access_rest(c, p2, l2, is_expr)
                } else {
                    Err(eof_error(c))
                },
            },
        }
    } else {
        Ok((left, p))
    }
}

/// One part of an access chain: a definition, an assignment, a call or a
/// read of `id`, or an instance creation.
#[verifier::opaque]
pub open spec fn sp_access_part(c: ParseCtx, p: int, previous: Option<Box<NodeView>>) -> PRes<NodeView>
    decreases c.toks.len() - p, 40int,
{
    if sp_check(c, p, TokenKind::Id) {
        let name = c.toks[p];
        let p1 = p + 1;
        if sp_check(c, p1, TokenKind::Walrus) {
            match sp_expr(c, p1 + 1) {
                Err(e) => Err(e),
                Ok((v, p2)) => Ok((NodeView::Define { previous, name, value: Box::new(v) }, p2)),
            }
        } else if sp_check(c, p1, TokenKind::Assign) {
            match sp_expr(c, p1 + 1) {
                Err(e) => Err(e),
                Ok((v, p2)) => Ok((NodeView::Assign { previous, name, value: Box::new(v) }, p2)),
            }
        } else if 0 <= p1 < c.toks.len() && is_compound_assign(c.toks[p1].tk_type) {
            match sp_expr(c, p1 + 1) {
                Err(e) => Err(e),
                Ok((v, p2)) => Ok((compound_assign(previous, name, c.toks[p1], compound_op(c.toks[p1].tk_type), v), p2)),
            }
        } else if sp_check(c, p1, TokenKind::Lparen) {
            match sp_args(c, p1) {
                Err(e) => Err(e),
                Ok((args, p2)) => Ok((NodeView::Call { previous, name, args, should_push: true }, p2)),
            }
        } else {
            Ok((NodeView::Get { previous, name, should_push: true }, p1))
        }
    } else {
        sp_object_creation(c, p)
    }
}

/// `new Name(args)`
#[verifier::opaque]
pub open spec fn sp_object_creation(c: ParseCtx, p: int) -> PRes<NodeView>
    decreases c.toks.len() - p, 30int,
{
    match sp_consume(c, p, TokenKind::New) {
        Err(e) => Err(e),
        Ok((_, p1)) => match sp_consume(c, p1, TokenKind::Id) {
            Err(e) => Err(e),
            Ok((name, p2)) => match sp_args(c, p2) {
                Err(e) => Err(e),
                Ok((args, p3)) => Ok((NodeView::Instance { name, constructor: args, should_push: true }, p3)),
            },
        },
    }
}

/// `( expr, expr, ... )`
#[verifier::opaque]
pub open spec fn sp_args(c: ParseCtx, p: int) -> PRes<Seq<NodeView>>
    decreases c.toks.len() - p, 20int,
{
    match sp_consume(c, p, TokenKind::Lparen) {
        Err(e) => Err(e),
        Ok((_, p1)) => if sp_check(c, p1, TokenKind::Rparen) {
            Ok((Seq::empty(), p1 + 1))
        } else {
            match sp_expr(c, p1) {
                Err(e) => Err(e),
                Ok((a, p2)) => if p < p2 <= c.toks.len() {
                    match sp_args_rest(c, p2, seq![a]) {
                        Err(e) => Err(e),
                        Ok((args, p3)) => match sp_consume(c, p3, TokenKind::Rparen) {
                            Err(e) => Err(e),
                            Ok((_, p4)) => Ok((args, p4)),
                        },
                    }
                } else {
                    Err(eof_error(c))
                },
            }
        },
    }
}

#[verifier::opaque]
pub open spec fn sp_args_rest(c: ParseCtx, p: int, acc: Seq<NodeView>) -> PRes<Seq<NodeView>>
    decreases c.toks.len() - p, 20int,
{
    if !sp_at_end(c, p) && sp_check(c, p, TokenKind::Comma) {
        match sp_expr(c, p + 1) {
            Err(e) => Err(e),
            Ok((a, p2)) => if p < p2 <= c.toks.len() {
                sp_args_rest(c, p2, acc.push(a))
            } else {
                Err(eof_error(c))
            },
        }
    } else {
        Ok((acc, p))
    }
}

/// `( expr )`
#[verifier::opaque]
pub open spec fn sp_grouping(c: ParseCtx, p: int) -> PRes<NodeView>
    decreases c.toks.len() - p, 70int,
{
    match sp_consume(c, p, TokenKind::Lparen) {
        Err(e) => Err(e),
        Ok((_, p1)) => match sp_expr(c, p1) {
            Err(e) => Err(e),
            Ok((n, p2)) => match sp_consume(c, p2, TokenKind::Rparen) {
                Err(e) => Err(e),
                Ok((_, p3)) => Ok((n, p3)),
            },
        },
    }
}

/// `fn (params) { block }` as a value.
#[verifier::opaque]
pub open spec fn sp_anonymous_fn(c: ParseCtx, p: int) -> PRes<NodeView>
    decreases c.toks.len() - p, 70int,
{
    match sp_consume(c, p, TokenKind::Fn) {
        Err(e) => Err(e),
        Ok((location, p1)) => match sp_opt_params(c, p1) {
            Err(e) => Err(e),
            Ok((params, p2)) => match sp_consume(c, p2, TokenKind::Lbrace) {
                Err(e) => Err(e),
                Ok((_, p3)) => if p < p3 <= c.toks.len() {
                    match sp_block(c, p3) {
                        Err(e) => Err(e),
                        Ok((body, p4)) => match sp_consume(c, p4, TokenKind::Rbrace) {
                            Err(e) => Err(e),
                            Ok((_, p5)) => Ok((NodeView::AnFnDeclaration { location, params, body: Box::new(body), make_closure: true }, p5)),
                        },
                    }
                } else {
                    Err(eof_error(c))
                },
            },
        },
    }
}

/// `lambda (params) -> expr`
#[verifier::opaque]
pub open spec fn sp_lambda(c: ParseCtx, p: int) -> PRes<NodeView>
    decreases c.toks.len() - p, 70int,
{
    match sp_consume(c, p, TokenKind::Lambda) {
        Err(e) => Err(e),
        Ok((location, p1)) => match sp_opt_params(c, p1) {
            Err(e) => Err(e),
            Ok((params, p2)) => match sp_consume(c, p2, TokenKind::Arrow) {
                Err(e) => Err(e),
                Ok((_, p3)) => if p < p3 <= c.toks.len() {
                    match sp_expr(c, p3) {
                        Err(e) => Err(e),
                        Ok((body, p4)) => Ok((
                            NodeView::AnFnDeclaration {
                                location,
                                params,
                                body: Box::new(NodeView::Ret { location, value: Box::new(body) }),
                                make_closure: true,
                            },
                            p4,
                        )),
                    }
                } else {
                    Err(eof_error(c))
                },
            },
        },
    }
}

#[verifier::opaque]
pub open spec fn sp_primary(c: ParseCtx, p: int) -> PRes<NodeView>
    decreases c.toks.len() - p, 71int,
{
    match sp_peek(c, p) {
        Err(e) => Err(e),
        Ok(t) => match t.tk_type {
            TokenKind::Id => sp_access_expr(c, p),
            TokenKind::New => sp_access_expr(c, p),
            TokenKind::Number => Ok((NodeView::Number { value: t }, p + 1)),
            TokenKind::Text => Ok((NodeView::String { value: t }, p + 1)),
            TokenKind::Bool => Ok((NodeView::Bool { value: t }, p + 1)),
            TokenKind::Lparen => sp_grouping(c, p),
            TokenKind::Lbrace => sp_map_expr(c, p),
            TokenKind::Lbracket => sp_list_expr(c, p),
            TokenKind::Null => Ok((NodeView::Null { location: t }, p + 1)),
            TokenKind::Fn => sp_anonymous_fn(c, p),
            TokenKind::Lambda => sp_lambda(c, p),
            TokenKind::Match => sp_match_expr(c, p),
            _ => Err(invalid_token_error(t)),
        },
    }
}

/// The body of a case or default of a `match` expression: `-> expr`, or a
/// braced block wrapped as a local function called at once.
#[verifier::opaque]
pub open spec fn sp_case_body_expr(c: ParseCtx, p: int, location: TokenView) -> PRes<NodeView>
    decreases c.toks.len() - p, 69int,
{
    if sp_check(c, p, TokenKind::Arrow) {
        sp_expr(c, p + 1)
    } else if sp_check(c, p, TokenKind::Lbrace) {
        match sp_block(c, p + 1) {
            Err(e) => Err(e),
            Ok((body, p2)) => match sp_consume(c, p2, TokenKind::Rbrace) {
                Err(e) => Err(e),
                Ok((_, p3)) => Ok((match_lambda(location, body), p3)),
            },
        }
    } else {
        Err(case_error(location))
    }
}

#[verifier::opaque]
pub open spec fn sp_match_expr_cases(c: ParseCtx, p: int, location: TokenView, acc: Seq<MatchCaseView>) -> PRes<Seq<MatchCaseView>>
    decreases c.toks.len() - p, 70int,
{
    if sp_check(c, p, TokenKind::Case) {
        match sp_expr(c, p + 1) {
            Err(e) => Err(e),
            Ok((value, p2)) => if p < p2 <= c.toks.len() {
                match sp_case_body_expr(c, p2, location) {
                    Err(e) => Err(e),
                    Ok((body, p3)) => if p < p3 <= c.toks.len() {
                        sp_match_expr_cases(c, p3, location, acc.push(MatchCaseView { value: Box::new(value), body: Box::new(body) }))
                    } else {
                        Err(eof_error(c))
                    },
                }
            } else {
                Err(eof_error(c))
            },
        }
    } else {
        Ok((acc, p))
    }
}

#[verifier::opaque]
pub open spec fn sp_match_expr(c: ParseCtx, p: int) -> PRes<NodeView>
    decreases c.toks.len() - p, 70int,
{
    match sp_consume(c, p, TokenKind::Match) {
        Err(e) => Err(e),
        Ok((location, p1)) => match sp_expr(c, p1) {
            Err(e) => Err(e),
            Ok((matchable, p2)) => match sp_consume(c, p2, TokenKind::Lbrace) {
                Err(e) => Err(e),
                Ok((_, p3)) => if p < p3 <= c.toks.len() {
                    match sp_match_expr_cases(c, p3, location, Seq::empty()) {
                        Err(e) => Err(e),
                        Ok((cases, p4)) => match sp_consume(c, p4, TokenKind::Default) {
                            Err(e) => Err(e),
                            Ok((_, p5)) => if p < p5 <= c.toks.len() {
                                match sp_case_body_expr(c, p5, location) {
                                    Err(e) => Err(e),
                                    Ok((default, p6)) => match sp_consume(c, p6, TokenKind::Rbrace) {
                                        Err(e) => Err(e),
                                        Ok((_, p7)) => Ok((NodeView::Match { location, matchable: Box::new(matchable), cases, default: Box::new(default) }, p7)),
                                    },
                                }
                            } else {
                                Err(eof_error(c))
                            },
                        },
                    }
                } else {
                    Err(eof_error(c))
                },
            },
        },
    }
}

#[verifier::opaque]
pub open spec fn sp_list_rest(c: ParseCtx, p: int, acc: Seq<NodeView>) -> PRes<Seq<NodeView>>
    decreases c.toks.len() - p, 70int,
{
    if sp_check(c, p, TokenKind::Comma) {
        match sp_expr(c, p + 1) {
            Err(e) => Err(e),
            Ok((v, p2)) => if p < p2 <= c.toks.len() {
                sp_list_rest(c, p2, acc.push(v))
            } else {
                Err(eof_error(c))
            },
        }
    } else {
        Ok((acc, p))
    }
}

/// `[ expr, ... ]`
#[verifier::opaque]
pub open spec fn sp_list_expr(c: ParseCtx, p: int) -> PRes<NodeView>
    decreases c.toks.len() - p, 70int,
{
    match sp_consume(c, p, TokenKind::Lbracket) {
        Err(e) => Err(e),
        Ok((location, p1)) => if sp_check(c, p1, TokenKind::Rbracket) {
            Ok((NodeView::List { location, values: Seq::empty() }, p1 + 1))
        } else {
            match sp_expr(c, p1) {
                Err(e) => Err(e),
                Ok((v, p2)) => if p < p2 <= c.toks.len() {
                    match sp_list_rest(c, p2, seq![v]) {
                        Err(e) => Err(e),
                        Ok((values, p3)) => match sp_consume(c, p3, TokenKind::Rbracket) {
                            Err(e) => Err(e),
                            Ok((_, p4)) => Ok((NodeView::List { location, values }, p4)),
                        },
                    }
                } else {
                    Err(eof_error(c))
                },
            }
        },
    }
}

/// `key : value`
#[verifier::opaque]
pub open spec fn sp_key_value(c: ParseCtx, p: int) -> PRes<(NodeView, NodeView)>
    decreases c.toks.len() - p, 84int,
{
    match sp_expr(c, p) {
        Err(e) => Err(e),
        Ok((l, p1)) => match sp_consume(c, p1, TokenKind::Colon) {
            Err(e) => Err(e),
            Ok((_, p2)) => if p < p2 <= c.toks.len() {
                match sp_expr(c, p2) {
                    Err(e) => Err(e),
                    Ok((r, p3)) => Ok(((l, r), p3)),
                }
            } else {
                Err(eof_error(c))
            },
        },
    }
}

#[verifier::opaque]
pub open spec fn sp_map_rest(c: ParseCtx, p: int, acc: Seq<(NodeView, NodeView)>) -> PRes<Seq<(NodeView, NodeView)>>
    decreases c.toks.len() - p, 82int,
{
    if sp_check(c, p, TokenKind::Comma) {
        match sp_key_value(c, p + 1) {
            Err(e) => Err(e),
            Ok((kv, p2)) => if p < p2 <= c.toks.len() {
                sp_map_rest(c, p2, acc.push(kv))
            } else {
                Err(eof_error(c))
            },
        }
    } else {
        Ok((acc, p))
    }
}

/// `{ key: value, ... }`
#[verifier::opaque]
pub open spec fn sp_map_expr(c: ParseCtx, p: int) -> PRes<NodeView>
    decreases c.toks.len() - p, 70int,
{
    match sp_consume(c, p, TokenKind::Lbrace) {
        Err(e) => Err(e),
        Ok((location, p1)) => if sp_check(c, p1, TokenKind::Rbrace) {
            Ok((NodeView::MapLiteral { location, values: Seq::empty() }, p1 + 1))
        } else {
            match sp_key_value(c, p1) {
                Err(e) => Err(e),
                Ok((kv, p2)) => if p < p2 <= c.toks.len() {
                    match sp_map_rest(c, p2, seq![kv]) {
                        Err(e) => Err(e),
                        Ok((values, p3)) => match sp_consume(c, p3, TokenKind::Rbrace) {
                            Err(e) => Err(e),
                            Ok((_, p4)) => Ok((NodeView::MapLiteral { location, values }, p4)),
                        },
                    }
                } else {
                    Err(eof_error(c))
                },
            }
        },
    }
}

#[verifier::opaque]
pub open spec fn sp_unary(c: ParseCtx, p: int) -> PRes<NodeView>
    decreases c.toks.len() - p, 72int,
{
    match sp_peek(c, p) {
        Err(e) => Err(e),
        Ok(t) => if is_unary_op(t) {
            match sp_primary(c, p + 1) {
                Err(e) => Err(e),
                Ok((v, p2)) => Ok((NodeView::Unary { op: t, value: Box::new(v) }, p2)),
            }
        } else {
            sp_primary(c, p)
        },
    }
}

#[verifier::opaque]
pub open spec fn sp_mul_rest(c: ParseCtx, p: int, left: NodeView) -> PRes<NodeView>
    decreases c.toks.len() - p, 73int,
{
    if is_mul_op(c, p) {
        match sp_unary(c, p + 1) {
            Err(e) => Err(e),
            Ok((right, p2)) => if p < p2 <= c.toks.len() {
                sp_mul_rest(c, p2, NodeView::Bin { left: Box::new(left), right: Box::new(right), op: c.toks[p] })
            } else {
                Err(eof_error(c))
            },
        }
    } else {
        Ok((left, p))
    }
}

#[verifier::opaque]
pub open spec fn sp_multiplicative(c: ParseCtx, p: int) -> PRes<NodeView>
    decreases c.toks.len() - p, 74int,
{
    match sp_unary(c, p) {
        Err(e) => Err(e),
        Ok((l, p1)) => if p < p1 <= c.toks.len() {
            sp_mul_rest(c, p1, l)
        } else {
            Err(eof_error(c))
        },
    }
}

#[verifier::opaque]
pub open spec fn sp_add_rest(c: ParseCtx, p: int, left: NodeView) -> PRes<NodeView>
    decreases c.toks.len() - p, 75int,
{
    if is_add_op(c, p) {
        match sp_multiplicative(c, p + 1) {
            Err(e) => Err(e),
            Ok((right, p2)) => if p < p2 <= c.toks.len() {
                sp_add_rest(c, p2, NodeView::Bin { left: Box::new(left), right: Box::new(right), op: c.toks[p] })
            } else {
                Err(eof_error(c))
            },
        }
    } else {
        Ok((left, p))
    }
}

#[verifier::opaque]
pub open spec fn sp_additive(c: ParseCtx, p: int) -> PRes<NodeView>
    decreases c.toks.len() - p, 76int,
{
    match sp_multiplicative(c, p) {
        Err(e) => Err(e),
        Ok((l, p1)) => if p < p1 <= c.toks.len() {
            sp_add_rest(c, p1, l)
        } else {
            Err(eof_error(c))
        },
    }
}

#[verifier::opaque]
pub open spec fn sp_range(c: ParseCtx, p: int) -> PRes<NodeView>
    decreases c.toks.len() - p, 77int,
{
    match sp_additive(c, p) {
        Err(e) => Err(e),
        Ok((l, p1)) => if sp_check(c, p1, TokenKind::Range) {
            if p < p1 <= c.toks.len() {
                match sp_additive(c, p1 + 1) {
                    Err(e) => Err(e),
                    Ok((r, p2)) => Ok((NodeView::Range { location: c.toks[p1], from: Box::new(l), to: Box::new(r) }, p2)),
                }
            } else {
                Err(eof_error(c))
            }
        } else {
            Ok((l, p1))
        },
    }
}

#[verifier::opaque]
pub open spec fn sp_impls(c: ParseCtx, p: int) -> PRes<NodeView>
    decreases c.toks.len() - p, 78int,
{
    match sp_range(c, p) {
        Err(e) => Err(e),
        Ok((l, p1)) => if sp_check(c, p1, TokenKind::Impls) {
            match sp_consume(c, p1 + 1, TokenKind::Id) {
                Err(e) => Err(e),
                Ok((trait_name, p2)) => Ok((NodeView::Impls { value: Box::new(l), trait_name }, p2)),
            }
        } else {
            Ok((l, p1))
        },
    }
}

#[verifier::opaque]
pub open spec fn sp_compare(c: ParseCtx, p: int) -> PRes<NodeView>
    decreases c.toks.len() - p, 79int,
{
    match sp_impls(c, p) {
        Err(e) => Err(e),
        Ok((l, p1)) => if is_compare_op(c, p1) {
            if p < p1 <= c.toks.len() {
                match sp_impls(c, p1 + 1) {
                    Err(e) => Err(e),
                    Ok((r, p2)) => Ok((NodeView::Cond { left: Box::new(l), right: Box::new(r), op: c.toks[p1] }, p2)),
                }
            } else {
                Err(eof_error(c))
            }
        } else {
            Ok((l, p1))
        },
    }
}

#[verifier::opaque]
pub open spec fn sp_equality(c: ParseCtx, p: int) -> PRes<NodeView>
    decreases c.toks.len() - p, 80int,
{
    match sp_compare(c, p) {
        Err(e) => Err(e),
        Ok((l, p1)) => if is_equality_op(c, p1) {
            if p < p1 <= c.toks.len() {
                match sp_compare(c, p1 + 1) {
                    Err(e) => Err(e),
                    Ok((r, p2)) => Ok((NodeView::Cond { left: Box::new(l), right: Box::new(r), op: c.toks[p1] }, p2)),
                }
            } else {
                Err(eof_error(c))
            }
        } else {
            Ok((l, p1))
        },
    }
}

#[verifier::opaque]
pub open spec fn sp_logical_rest(c: ParseCtx, p: int, left: NodeView) -> PRes<NodeView>
    decreases c.toks.len() - p, 81int,
{
    if is_logical_op(c, p) {
        match sp_equality(c, p + 1) {
            Err(e) => Err(e),
            Ok((right, p2)) => if p < p2 <= c.toks.len() {
                sp_logical_rest(c, p2, NodeView::Logical { left: Box::new(left), right: Box::new(right), op: c.toks[p] })
            } else {
                Err(eof_error(c))
            },
        }
    } else {
        Ok((left, p))
    }
}

#[verifier::opaque]
pub open spec fn sp_logical(c: ParseCtx, p: int) -> PRes<NodeView>
    decreases c.toks.len() - p, 82int,
{
    match sp_equality(c, p) {
        Err(e) => Err(e),
        Ok((l, p1)) => if p < p1 <= c.toks.len() {
            sp_logical_rest(c, p1, l)
        } else {
            Err(eof_error(c))
        },
    }
}

/// An expression.
#[verifier::opaque]
pub open spec fn sp_expr(c: ParseCtx, p: int) -> PRes<NodeView>
    decreases c.toks.len() - p, 83int,
{
    sp_logical(c, p)
}

#[verifier::opaque]
pub open spec fn sp_return_stmt(c: ParseCtx, p: int) -> PRes<NodeView>
    decreases c.toks.len() - p, 90int,
{
    match sp_consume(c, p, TokenKind::Ret) {
        Err(e) => Err(e),
        Ok((location, p1)) => match sp_expr(c, p1) {
            Err(e) => Err(e),
            Ok((v, p2)) => Ok((NodeView::Ret { location, value: Box::new(v) }, p2)),
        },
    }
}

#[verifier::opaque]
pub open spec fn sp_function_stmt(c: ParseCtx, p: int) -> PRes<NodeView>
    decreases c.toks.len() - p, 90int,
{
    match sp_consume(c, p, TokenKind::Fn) {
        Err(e) => Err(e),
        Ok((_, p1)) => match sp_consume(c, p1, TokenKind::Id) {
            Err(e) => Err(e),
            Ok((name, p2)) => match sp_opt_params(c, p2) {
                Err(e) => Err(e),
                Ok((params, p3)) => match sp_consume(c, p3, TokenKind::Lbrace) {
                    Err(e) => Err(e),
                    Ok((_, p4)) => if p < p4 <= c.toks.len() {
                        match sp_block(c, p4) {
                            Err(e) => Err(e),
                            Ok((body, p5)) => match sp_consume(c, p5, TokenKind::Rbrace) {
                                Err(e) => Err(e),
                                Ok((_, p6)) => Ok((
                                    NodeView::FnDeclaration {
                                        name,
                                        full_name: Some(full_name_of(c, name)),
                                        params,
                                        body: Box::new(body),
                                        make_closure: true,
                                    },
                                    p6,
                                )),
                            },
                        }
                    } else {
                        Err(eof_error(c))
                    },
                },
            },
        },
    }
}

/// `{ block }`: the body of a loop.
#[verifier::opaque]
pub open spec fn sp_braced_block(c: ParseCtx, p: int) -> PRes<NodeView>
    decreases c.toks.len() - p, 101int,
{
    match sp_consume(c, p, TokenKind::Lbrace) {
        Err(e) => Err(e),
        Ok((_, p1)) => match sp_block(c, p1) {
            Err(e) => Err(e),
            Ok((body, p2)) => match sp_consume(c, p2, TokenKind::Rbrace) {
                Err(e) => Err(e),
                Ok((_, p3)) => Ok((body, p3)),
            },
        },
    }
}

#[verifier::opaque]
pub open spec fn sp_for_stmt(c: ParseCtx, p: int) -> PRes<NodeView>
    decreases c.toks.len() - p, 90int,
{
    match sp_consume(c, p, TokenKind::For) {
        Err(e) => Err(e),
        Ok((_, p1)) => match sp_consume(c, p1, TokenKind::Id) {
            Err(e) => Err(e),
            Ok((name, p2)) => match sp_consume(c, p2, TokenKind::In) {
                Err(e) => Err(e),
                Ok((_, p3)) => match sp_expr(c, p3) {
                    Err(e) => Err(e),
                    Ok((iterable, p4)) => if p < p4 <= c.toks.len() {
                        match sp_braced_block(c, p4) {
                            Err(e) => Err(e),
                            Ok((body, p5)) => Ok((NodeView::For { iterable: Box::new(iterable), variable_name: name, body: Box::new(body) }, p5)),
                        }
                    } else {
                        Err(eof_error(c))
                    },
                },
            },
        },
    }
}

#[verifier::opaque]
pub open spec fn sp_while_stmt(c: ParseCtx, p: int) -> PRes<NodeView>
    decreases c.toks.len() - p, 90int,
{
    match sp_consume(c, p, TokenKind::While) {
        Err(e) => Err(e),
        Ok((location, p1)) => match sp_expr(c, p1) {
            Err(e) => Err(e),
            Ok((logical, p2)) => if p < p2 <= c.toks.len() {
                match sp_braced_block(c, p2) {
                    Err(e) => Err(e),
                    Ok((body, p3)) => Ok((NodeView::While { location, logical: Box::new(logical), body: Box::new(body) }, p3)),
                }
            } else {
                Err(eof_error(c))
            },
        },
    }
}

/// The body of a case or default of a `match` statement: `-> statement`
/// or a braced block.
#[verifier::opaque]
pub open spec fn sp_case_body_stmt(c: ParseCtx, p: int, location: TokenView) -> PRes<NodeView>
    decreases c.toks.len() - p, 102int,
{
    if sp_check(c, p, TokenKind::Arrow) {
        sp_statement(c, p + 1)
    } else if sp_check(c, p, TokenKind::Lbrace) {
        sp_braced_block(c, p)
    } else {
        Err(case_error(location))
    }
}

#[verifier::opaque]
pub open spec fn sp_match_stmt_cases(c: ParseCtx, p: int, location: TokenView, acc: Seq<MatchCaseView>) -> PRes<Seq<MatchCaseView>>
    decreases c.toks.len() - p, 90int,
{
    if sp_check(c, p, TokenKind::Case) {
        match sp_expr(c, p + 1) {
            Err(e) => Err(e),
            Ok((value, p2)) => if p < p2 <= c.toks.len() {
                match sp_case_body_stmt(c, p2, location) {
                    Err(e) => Err(e),
                    Ok((body, p3)) => if p < p3 <= c.toks.len() {
                        sp_match_stmt_cases(c, p3, location, acc.push(MatchCaseView { value: Box::new(value), body: Box::new(body) }))
                    } else {
                        Err(eof_error(c))
                    },
                }
            } else {
                Err(eof_error(c))
            },
        }
    } else {
        Ok((acc, p))
    }
}

#[verifier::opaque]
pub open spec fn sp_match_stmt(c: ParseCtx, p: int) -> PRes<NodeView>
    decreases c.toks.len() - p, 90int,
{
    match sp_consume(c, p, TokenKind::Match) {
        Err(e) => Err(e),
        Ok((location, p1)) => match sp_expr(c, p1) {
            Err(e) => Err(e),
            Ok((matchable, p2)) => match sp_consume(c, p2, TokenKind::Lbrace) {
                Err(e) => Err(e),
                Ok((_, p3)) => if p < p3 <= c.toks.len() {
                    match sp_match_stmt_cases(c, p3, location, Seq::empty()) {
                        Err(e) => Err(e),
                        Ok((cases, p4)) => match sp_consume(c, p4, TokenKind::Default) {
                            Err(e) => Err(e),
                            Ok((_, p5)) => if p < p5 <= c.toks.len() {
                                match sp_case_body_stmt(c, p5, location) {
                                    Err(e) => Err(e),
                                    Ok((default, p6)) => match sp_consume(c, p6, TokenKind::Rbrace) {
                                        Err(e) => Err(e),
                                        Ok((_, p7)) => Ok((NodeView::Match { location, matchable: Box::new(matchable), cases, default: Box::new(default) }, p7)),
                                    },
                                }
                            } else {
                                Err(eof_error(c))
                            },
                        },
                    }
                } else {
                    Err(eof_error(c))
                },
            },
        },
    }
}

/// The functions of a trait body.
#[verifier::opaque]
pub open spec fn sp_trait_items(c: ParseCtx, p: int, acc: Seq<TraitFnView>) -> PRes<Seq<TraitFnView>>
    decreases c.toks.len() - p, 99int,
{
    if !sp_at_end(c, p) && !sp_check(c, p, TokenKind::Rbrace) {
        if sp_check(c, p, TokenKind::Fn) {
            match sp_consume(c, p + 1, TokenKind::Id) {
                Err(e) => Err(e),
                Ok((name, p2)) => match sp_opt_params(c, p2) {
                    Err(e) => Err(e),
                    Ok((params, p3)) => if p < p3 <= c.toks.len() {
                        if sp_check(c, p3, TokenKind::Lbrace) {
                            match sp_braced_block(c, p3) {
                                Err(e) => Err(e),
                                Ok((body, p4)) => if p < p4 <= c.toks.len() {
                                    sp_trait_items(c, p4, acc.push(TraitFnView { name, params, default: Some(Box::new(body)) }))
                                } else {
                                    Err(eof_error(c))
                                },
                            }
                        } else {
                            sp_trait_items(c, p3, acc.push(TraitFnView { name, params, default: None }))
                        }
                    } else {
                        Err(eof_error(c))
                    },
                },
            }
        } else {
            Err(error_of(c.toks[p].address, "only fn-s can be declared in trait."@, "you can create this declaration: 'fn meow(cat)'"@))
        }
    } else {
        Ok((acc, p))
    }
}

#[verifier::opaque]
pub open spec fn sp_trait_stmt(c: ParseCtx, p: int) -> PRes<NodeView>
    decreases c.toks.len() - p, 90int,
{
    match sp_consume(c, p, TokenKind::Trait) {
        Err(e) => Err(e),
        Ok((_, p1)) => match sp_consume(c, p1, TokenKind::Id) {
            Err(e) => Err(e),
            Ok((name, p2)) => match sp_consume(c, p2, TokenKind::Lbrace) {
                Err(e) => Err(e),
                Ok((_, p3)) => match sp_trait_items(c, p3, Seq::empty()) {
                    Err(e) => Err(e),
                    Ok((functions, p4)) => match sp_consume(c, p4, TokenKind::Rbrace) {
                        Err(e) => Err(e),
                        Ok((_, p5)) => Ok((NodeView::Trait { name, full_name: Some(full_name_of(c, name)), functions }, p5)),
                    },
                },
            },
        },
    }
}

/// The whole program: statements up to a closing brace or the end.
pub open spec fn spec_parse(c: ParseCtx) -> Result<NodeView, ErrorView> {
    match sp_block(c, 0) {
        Ok((n, _)) => Ok(n),
        Err(e) => Err(e),
    }
}

// ---------------------------------------------------------------------------
// The parser.
// ---------------------------------------------------------------------------

/// A node result and the position after it, as the grammar states results.
pub open spec fn node_out(r: Result<Node, Error>, p: int) -> PRes<NodeView> {
    match r {
        Ok(n) => Ok((n@, p)),
        Err(e) => Err(e@),
    }
}

pub open spec fn nodes_out(r: Result<Vec<Node>, Error>, p: int) -> PRes<Seq<NodeView>> {
    match r {
        Ok(v) => Ok((nodes_view(v@), p)),
        Err(e) => Err(e@),
    }
}

pub open spec fn tok_out(r: Result<Token, Error>, p: int) -> PRes<TokenView> {
    match r {
        Ok(t) => Ok((t@, p)),
        Err(e) => Err(e@),
    }
}

pub open spec fn toks_out(r: Result<Vec<Token>, Error>, p: int) -> PRes<Seq<TokenView>> {
    match r {
        Ok(v) => Ok((tokens_view(v@), p)),
        Err(e) => Err(e@),
    }
}

} // verus!

verus! {

proof fn lemma_block_items_block(c: ParseCtx, p: int, acc: Seq<NodeView>)
    ensures
        sp_block_items(c, p, acc) is Ok ==> sp_block_items(c, p, acc)->Ok_0.0 is Block,
    decreases c.toks.len() - p,
{
    reveal_with_fuel(sp_block_items, 1);
    reveal_with_fuel(sp_statement, 1);
    if !(sp_at_end(c, p) || sp_check(c, p, TokenKind::Rbrace)) {
        match sp_statement(c, p) {
            Err(e) => {},
            Ok((n, p1)) => {
                if p < p1 <= c.toks.len() {
                    lemma_block_items_block(c, p1, acc.push(n));
                }
            },
        }
    }
}

/// Whatever the tokens, a successful parse gives a block of statements.
pub proof fn lemma_parse_gives_block(c: ParseCtx)
    ensures
        spec_parse(c) is Ok ==> spec_parse(c)->Ok_0 is Block,
{
    reveal_with_fuel(sp_block, 1);
    reveal_with_fuel(sp_block_items, 1);
    lemma_block_items_block(c, 0, Seq::empty());
}

/// The operator of a compound assignment `x op= v`, which parses to
/// `x = x op v`, is the text of its token without the `=`: for every
/// compound assignment token the lexer reads, `op` followed by `=` is the
/// token's text (`-` for `-=`, `*` for `*=`, `/` for `/=`, `+` for `+=`).
pub proof fn law_compound_operator_is_token_text_without_eq(code: Seq<char>, file: String)
    ensures
        spec_lex(code, file) is Ok ==> forall|i: int|
            0 <= i < spec_lex(code, file)->Ok_0.len() && is_compound_assign(#[trigger] spec_lex(code, file)->Ok_0[i].tk_type)
                ==> compound_op(spec_lex(code, file)->Ok_0[i].tk_type) + "="@ == spec_lex(code, file)->Ok_0[i].value,
{
    law_operator_tokens_are_spelled_as_read(code, file);
    reveal_strlit("+");
    reveal_strlit("-");
    reveal_strlit("*");
    reveal_strlit("/");
    reveal_strlit("=");
    reveal_strlit("+=");
    reveal_strlit("-=");
    reveal_strlit("*=");
    reveal_strlit("/=");
    assert("+"@ + "="@ =~= "+="@);
    assert("-"@ + "="@ =~= "-="@);
    assert("*"@ + "="@ =~= "*="@);
    assert("/"@ + "="@ =~= "/="@);
}

} // verus!
