use vstd::prelude::*;
use crate::errors::errors::{Error, ErrorView, error_of};
use crate::lexer::address::Address;
use crate::lexer::cursor::{Cursor, char_or_nul};
use crate::text::{push_char, str_equals, string_of};

verus! {

/// The kinds of token the lexer produces.
#[derive(Debug, Clone, Copy, PartialEq, Eq, Hash, Structural)]
pub enum TokenKind {
    Fn,
    Op,
    Lparen,
    Rparen,
    Lbrace,
    Rbrace,
    Lambda,
    Walrus,
    Eq,
    NotEq,
    Text,
    Number,
    Assign,
    Id,
    Comma,
    Ret,
    If,
    Bool,
    While,
    Type,
    New,
    Dot,
    Greater,
    Less,
    GreaterEq,
    LessEq,
    Null,
    Elif,
    Else,
    And,
    Or,
    Import,
    AssignAdd,
    AssignSub,
    AssignMul,
    AssignDiv,
    Break,
    AssignAnd,
    AssignOr,
    AssignXor,
    Match,
    Case,
    Default,
    Lbracket,
    Rbracket,
    Colon,
    For,
    Bang,
    In,
    Continue,
    Arrow,
    Unit,
    Native,
    With,
    Trait,
    Impl,
    Question,
    Impls,
    Range,
}

/// A token: its kind, its text and where it ends in the source.
#[derive(Debug, PartialEq, Eq, Hash)]
pub struct Token {
    pub tk_type: TokenKind,
    pub value: String,
    pub address: Address,
}

/// The mathematical content of a [`Token`].
pub struct TokenView {
    pub tk_type: TokenKind,
    pub value: Seq<char>,
    pub address: Address,
}

impl View for Token {
    type V = TokenView;

    open spec fn view(&self) -> TokenView {
        TokenView { tk_type: self.tk_type, value: self.value@, address: self.address }
    }
}

impl Clone for Token {
    fn clone(&self) -> (r: Self)
        ensures
            r == *self,
    {
        Token { tk_type: self.tk_type, value: self.value.clone(), address: self.address.clone() }
    }
}

impl Token {
    /// Creates token from tk_type, value, address
    pub fn new(tk_type: TokenKind, value: String, address: Address) -> (r: Token)
        ensures
            r == (Token { tk_type, value, address }),
    {
        Token { tk_type, value, address }
    }
}

/// The views of a sequence of tokens.
pub open spec fn tokens_view(ts: Seq<Token>) -> Seq<TokenView> {
    ts.map_values(|t: Token| t@)
}

// ---------------------------------------------------------------------------
// The lexical grammar, as a state machine over the characters of the source.
// ---------------------------------------------------------------------------

/// Where the lexer stands: the index of the next character, the line and
/// column counters, and the tokens produced so far.
pub struct LexState {
    pub pos: int,
    pub line: int,
    pub column: u16,
    pub tokens: Seq<TokenView>,
}

/// Why lexing stopped without a token list.
pub enum LexFault {
    /// A lexical error was reported.
    Failed(ErrorView),
    /// The identifier check `is_id` recurses without end (the text `::`
    /// right after an identifier character).
    Endless,
}

pub open spec fn initial_lex_state() -> LexState {
    LexState { pos: 0, line: 1, column: 0, tokens: Seq::empty() }
}

pub open spec fn next_column(c: u16) -> u16 {
    if c == u16::MAX {
        0
    } else {
        (c + 1) as u16
    }
}

pub open spec fn st_addr(file: String, st: LexState) -> Address {
    Address { line: st.line as u64, column: st.column, file: Some(file) }
}

pub open spec fn st_adv(st: LexState) -> LexState {
    LexState { pos: st.pos + 1, column: next_column(st.column), ..st }
}

pub open spec fn st_newline(st: LexState) -> LexState {
    LexState { line: st.line + 1, column: 0, ..st }
}

pub open spec fn at_end(code: Seq<char>, st: LexState) -> bool {
    st.pos >= code.len()
}

pub open spec fn cur(code: Seq<char>, st: LexState) -> char {
    char_or_nul(code, st.pos)
}

pub open spec fn nxt(code: Seq<char>, st: LexState) -> char {
    char_or_nul(code, st.pos + 1)
}

/// `is_match`: the current character exists and is `c`.
pub open spec fn matches_char(code: Seq<char>, st: LexState, c: char) -> bool {
    !at_end(code, st) && cur(code, st) == c
}

pub open spec fn st_push(file: String, st: LexState, kind: TokenKind, text: Seq<char>) -> LexState {
    LexState {
        tokens: st.tokens.push(TokenView { tk_type: kind, value: text, address: st_addr(file, st) }),
        ..st
    }
}

pub open spec fn is_digit_char(c: char) -> bool {
    '0' <= c && c <= '9'
}

pub open spec fn is_letter_char(c: char) -> bool {
    ('a' <= c && c <= 'z') || ('A' <= c && c <= 'Z') || c == '_'
}

/// Whether `c` continues a number written in base `radix` (16, 8 or 2).
pub open spec fn is_radix_digit(c: char, radix: u32) -> bool {
    if radix == 16 {
        is_digit_char(c) || ('a' <= c && c <= 'f') || ('A' <= c && c <= 'F')
    } else if radix == 8 {
        '0' <= c && c <= '7'
    } else {
        '0' <= c && c <= '1'
    }
}

/// `is_id` of the current character: a letter or digit, or a colon
/// followed by a letter or digit. `None` where the check never returns.
pub open spec fn id_char(code: Seq<char>, st: LexState) -> Option<bool> {
    id_check(cur(code, st), nxt(code, st))
}

/// `is_id` of a character `c` when the character after the cursor is `n`.
pub open spec fn id_check(c: char, n: char) -> Option<bool> {
    if is_letter_char(c) || is_digit_char(c) {
        Some(true)
    } else if c == ':' {
        if is_letter_char(n) || is_digit_char(n) {
            Some(true)
        } else if n == ':' {
            None
        } else {
            Some(false)
        }
    } else {
        Some(false)
    }
}

/// The kind of a reserved word.
pub open spec fn keyword_kind(text: Seq<char>) -> Option<TokenKind> {
    if text == "fn"@ {
        Some(TokenKind::Fn)
    } else if text == "break"@ {
        Some(TokenKind::Break)
    } else if text == "if"@ {
        Some(TokenKind::If)
    } else if text == "elif"@ {
        Some(TokenKind::Elif)
    } else if text == "else"@ {
        Some(TokenKind::Else)
    } else if text == "and"@ {
        Some(TokenKind::And)
    } else if text == "or"@ {
        Some(TokenKind::Or)
    } else if text == "import"@ {
        Some(TokenKind::Import)
    } else if text == "type"@ {
        Some(TokenKind::Type)
    } else if text == "new"@ {
        Some(TokenKind::New)
    } else if text == "match"@ {
        Some(TokenKind::Match)
    } else if text == "case"@ {
        Some(TokenKind::Case)
    } else if text == "default"@ {
        Some(TokenKind::Default)
    } else if text == "lambda"@ {
        Some(TokenKind::Lambda)
    } else if text == "while"@ {
        Some(TokenKind::While)
    } else if text == "unit"@ {
        Some(TokenKind::Unit)
    } else if text == "for"@ {
        Some(TokenKind::For)
    } else if text == "in"@ {
        Some(TokenKind::In)
    } else if text == "continue"@ {
        Some(TokenKind::Continue)
    } else if text == "true"@ {
        Some(TokenKind::Bool)
    } else if text == "false"@ {
        Some(TokenKind::Bool)
    } else if text == "null"@ {
        Some(TokenKind::Null)
    } else if text == "return"@ {
        Some(TokenKind::Ret)
    } else if text == "trait"@ {
        Some(TokenKind::Trait)
    } else if text == "impl"@ {
        Some(TokenKind::Impl)
    } else if text == "native"@ {
        Some(TokenKind::Native)
    } else if text == "impls"@ {
        Some(TokenKind::Impls)
    } else if text == "with"@ {
        Some(TokenKind::With)
    } else {
        None
    }
}

/// The kind of a scanned word: its keyword kind, or `Id`.
pub open spec fn word_kind(text: Seq<char>) -> TokenKind {
    match keyword_kind(text) {
        Some(k) => k,
        None => TokenKind::Id,
    }
}

/// The body of a string literal, the opening quote already read; stops in
/// front of the closing quote.
pub open spec fn scan_str(code: Seq<char>, file: String, st: LexState, text: Seq<char>) -> Result<(LexState, Seq<char>), ErrorView>
    decreases code.len() - st.pos,
{
    if cur(code, st) == '\'' {
        Ok((st, text))
    } else {
        let ch = cur(code, st);
        let s1 = st_adv(st);
        let escaped = ch == '\\' && cur(code, s1) == '\'';
        let s2 = if escaped { st_adv(s1) } else { s1 };
        let t2 = if escaped { text.push(cur(code, s1)) } else { text.push(ch) };
        if at_end(code, s2) {
            Err(error_of(st_addr(file, s2), "unclosed string quotes."@, "did you forget ' symbol?"@))
        } else if matches_char(code, s2, '\n') {
            Err(error_of(st_addr(file, st_adv(s2)), "unclosed string quotes."@, "did you forget ' symbol?"@))
        } else {
            scan_str(code, file, s2, t2)
        }
    }
}

/// The rest of a decimal number, `is_float` telling whether a dot was seen.
pub open spec fn scan_num(code: Seq<char>, file: String, st: LexState, text: Seq<char>, is_float: bool) -> Result<(LexState, Seq<char>), ErrorView>
    decreases code.len() - st.pos,
{
    let c = cur(code, st);
    if is_digit_char(c) || c == '.' {
        if c == '.' {
            if nxt(code, st) == '.' {
                Ok((st, text))
            } else if is_float {
                Err(error_of(st_addr(file, st), "couldn't parse number with two dots"@, "check your code."@))
            } else {
                scan_num(code, file, st_adv(st), text.push(c), true)
            }
        } else {
            let s1 = st_adv(st);
            if at_end(code, s1) {
                Ok((s1, text.push(c)))
            } else {
                scan_num(code, file, s1, text.push(c), is_float)
            }
        }
    } else {
        Ok((st, text))
    }
}

/// The digits of a hexadecimal, octal or binary number.
pub open spec fn scan_radix(code: Seq<char>, st: LexState, text: Seq<char>, radix: u32) -> (LexState, Seq<char>)
    decreases code.len() - st.pos,
{
    let c = cur(code, st);
    if is_radix_digit(c, radix) && !at_end(code, st) {
        let s1 = st_adv(st);
        if at_end(code, s1) {
            (s1, text.push(c))
        } else {
            scan_radix(code, s1, text.push(c), radix)
        }
    } else {
        (st, text)
    }
}

/// The rest of an identifier or keyword; `None` where `is_id` never returns.
pub open spec fn scan_ident(code: Seq<char>, st: LexState, text: Seq<char>) -> Option<(LexState, Seq<char>)>
    decreases code.len() - st.pos,
{
    match id_char(code, st) {
        None => None,
        Some(false) => Some((st, text)),
        Some(true) => {
            let s1 = st_adv(st);
            if at_end(code, s1) || at_end(code, st) {
                Some((s1, text.push(cur(code, st))))
            } else {
                scan_ident(code, s1, text.push(cur(code, st)))
            }
        },
    }
}

/// A `//` comment: up to and including the end of the line.
pub open spec fn line_comment(code: Seq<char>, st: LexState) -> LexState
    decreases code.len() - st.pos,
{
    if matches_char(code, st, '\n') {
        st_newline(st_adv(st))
    } else if at_end(code, st) {
        st_newline(st)
    } else {
        line_comment(code, st_adv(st))
    }
}

/// A `/* */` comment: up to and including `*/` (two more characters are
/// stepped over at the end of the text).
pub open spec fn block_comment(code: Seq<char>, st: LexState) -> LexState
    decreases code.len() - st.pos,
{
    if (cur(code, st) == '*' && nxt(code, st) == '/') || at_end(code, st) {
        st_adv(st_adv(st))
    } else if matches_char(code, st, '\n') {
        block_comment(code, st_newline(st_adv(st)))
    } else {
        block_comment(code, st_adv(st))
    }
}

/// An operator that may be followed by `=` to form a compound token.
pub open spec fn op_or_assign(code: Seq<char>, file: String, s: LexState, with_eq: TokenKind, with_eq_text: Seq<char>, alone: TokenKind, alone_text: Seq<char>) -> LexState {
    if matches_char(code, s, '=') {
        st_push(file, st_adv(s), with_eq, with_eq_text)
    } else {
        st_push(file, s, alone, alone_text)
    }
}

/// A number token starting with the digit `ch` (already read). Only a
/// leading `0` followed by `x`, `o` or `b` starts a hexadecimal, octal or
/// binary literal.
pub open spec fn lex_number(code: Seq<char>, file: String, s: LexState, ch: char) -> Result<LexState, LexFault> {
    let p = cur(code, s);
    if ch == '0' && p == 'x' {
        let (s2, t) = scan_radix(code, st_adv(s), "0x"@, 16);
        Ok(st_push(file, s2, TokenKind::Number, t))
    } else if ch == '0' && p == 'o' {
        let (s2, t) = scan_radix(code, st_adv(s), "0o"@, 8);
        Ok(st_push(file, s2, TokenKind::Number, t))
    } else if ch == '0' && p == 'b' {
        let (s2, t) = scan_radix(code, st_adv(s), "0b"@, 2);
        Ok(st_push(file, s2, TokenKind::Number, t))
    } else {
        match scan_num(code, file, s, seq![ch], false) {
            Ok((s2, t)) => Ok(st_push(file, s2, TokenKind::Number, t)),
            Err(e) => Err(LexFault::Failed(e)),
        }
    }
}

/// One turn of the lexer's main loop, at a position inside the text.
pub open spec fn lex_step(code: Seq<char>, file: String, st: LexState) -> Result<LexState, LexFault> {
    let ch = cur(code, st);
    let s = st_adv(st);
    match ch {
        '+' => Ok(op_or_assign(code, file, s, TokenKind::AssignAdd, "+="@, TokenKind::Op, "+"@)),
        '&' => Ok(op_or_assign(code, file, s, TokenKind::AssignAnd, "&="@, TokenKind::Op, "&"@)),
        '|' => Ok(op_or_assign(code, file, s, TokenKind::AssignOr, "|="@, TokenKind::Op, "|"@)),
        '^' => Ok(op_or_assign(code, file, s, TokenKind::AssignXor, "^="@, TokenKind::Op, "^"@)),
        '-' => Ok(
            if matches_char(code, s, '=') {
                st_push(file, st_adv(s), TokenKind::AssignSub, "-="@)
            } else if matches_char(code, s, '>') {
                st_push(file, st_adv(s), TokenKind::Arrow, "->"@)
            } else {
                st_push(file, s, TokenKind::Op, "-"@)
            },
        ),
        '*' => Ok(op_or_assign(code, file, s, TokenKind::AssignMul, "*="@, TokenKind::Op, "*"@)),
        '%' => Ok(st_push(file, s, TokenKind::Op, "%"@)),
        '/' => Ok(
            if matches_char(code, s, '=') {
                st_push(file, st_adv(s), TokenKind::AssignDiv, "/="@)
            } else if matches_char(code, s, '/') {
                line_comment(code, st_adv(s))
            } else if matches_char(code, s, '*') {
                block_comment(code, st_adv(s))
            } else {
                st_push(file, s, TokenKind::Op, "/"@)
            },
        ),
        '(' => Ok(st_push(file, s, TokenKind::Lparen, "("@)),
        ')' => Ok(st_push(file, s, TokenKind::Rparen, ")"@)),
        '{' => Ok(st_push(file, s, TokenKind::Lbrace, "{"@)),
        '}' => Ok(st_push(file, s, TokenKind::Rbrace, "}"@)),
        '[' => Ok(st_push(file, s, TokenKind::Lbracket, "["@)),
        ']' => Ok(st_push(file, s, TokenKind::Rbracket, "]"@)),
        ',' => Ok(st_push(file, s, TokenKind::Comma, ","@)),
        '.' => Ok(op_or_assign_dot(code, file, s)),
        '?' => Ok(st_push(file, s, TokenKind::Question, "?"@)),
        ':' => Ok(op_or_assign(code, file, s, TokenKind::Walrus, ":="@, TokenKind::Colon, ":"@)),
        '<' => Ok(op_or_assign(code, file, s, TokenKind::LessEq, "<="@, TokenKind::Less, "<"@)),
        '>' => Ok(op_or_assign(code, file, s, TokenKind::GreaterEq, ">="@, TokenKind::Greater, ">"@)),
        '!' => Ok(op_or_assign(code, file, s, TokenKind::NotEq, "!="@, TokenKind::Bang, "!"@)),
        '=' => Ok(op_or_assign(code, file, s, TokenKind::Eq, "=="@, TokenKind::Assign, "="@)),
        '\r' => Ok(s),
        '\t' => Ok(s),
        '\0' => Ok(s),
        ' ' => Ok(s),
        '\n' => Ok(st_newline(s)),
        '\'' => match scan_str(code, file, s, Seq::empty()) {
            Ok((s2, t)) => Ok(st_push(file, st_adv(s2), TokenKind::Text, t)),
            Err(e) => Err(LexFault::Failed(e)),
        },
        _ => {
            if is_digit_char(ch) {
                lex_number(code, file, s, ch)
            } else if is_letter_char(ch) {
                match scan_ident(code, s, seq![ch]) {
                    None => Err(LexFault::Endless),
                    Some((s2, t)) => Ok(st_push(file, s2, word_kind(t), t)),
                }
            } else {
                Err(
                    LexFault::Failed(
                        error_of(st_addr(file, s), "unexpected char: "@.push(ch), "delete char: "@.push(ch)),
                    ),
                )
            }
        },
    }
}

/// `.` or the range operator `..`.
pub open spec fn op_or_assign_dot(code: Seq<char>, file: String, s: LexState) -> LexState {
    if matches_char(code, s, '.') {
        st_push(file, st_adv(s), TokenKind::Range, ".."@)
    } else {
        st_push(file, s, TokenKind::Dot, "."@)
    }
}

/// The lexer's main loop from state `st` to the end of the text.
pub open spec fn lex_run(code: Seq<char>, file: String, st: LexState) -> Result<Seq<TokenView>, LexFault>
    decreases code.len() + 2 - st.pos,
{
    if st.pos >= code.len() {
        Ok(st.tokens)
    } else {
        match lex_step(code, file, st) {
            Ok(s2) => if st.pos < s2.pos <= code.len() + 2 {
                lex_run(code, file, s2)
            } else {
                Ok(s2.tokens)
            },
            Err(f) => Err(f),
        }
    }
}

/// The tokens of `code` read as a file named `file`.
pub open spec fn spec_lex(code: Seq<char>, file: String) -> Result<Seq<TokenView>, LexFault> {
    lex_run(code, file, initial_lex_state())
}


/// No token of kind `Id` in `ts` spells a reserved word.
pub open spec fn ids_not_keywords(ts: Seq<TokenView>) -> bool {
    forall|i: int| 0 <= i < ts.len() && #[trigger] ts[i].tk_type == TokenKind::Id ==> keyword_kind(ts[i].value) is None
}

proof fn lemma_scan_str_tokens(code: Seq<char>, file: String, st: LexState, text: Seq<char>)
    ensures
        scan_str(code, file, st, text) is Ok ==> scan_str(code, file, st, text)->Ok_0.0.tokens == st.tokens,
        scan_str(code, file, st, text) is Ok ==> scan_str(code, file, st, text)->Ok_0.0.line == st.line,
        scan_str(code, file, st, text) is Ok ==> scan_str(code, file, st, text)->Ok_0.0.pos >= st.pos,
        scan_str(code, file, st, text) is Ok ==> scan_str(code, file, st, text)->Ok_0.0.pos <= (if st.pos > code.len() { st.pos } else { code.len() as int }),
    decreases code.len() - st.pos,
{
    if cur(code, st) != '\'' {
        let ch = cur(code, st);
        let s1 = st_adv(st);
        let escaped = ch == '\\' && cur(code, s1) == '\'';
        let s2 = if escaped { st_adv(s1) } else { s1 };
        let t2 = if escaped { text.push(cur(code, s1)) } else { text.push(ch) };
        if !at_end(code, s2) && !matches_char(code, s2, '\n') {
            lemma_scan_str_tokens(code, file, s2, t2);
        }
    }
}

proof fn lemma_scan_num_tokens(code: Seq<char>, file: String, st: LexState, text: Seq<char>, is_float: bool)
    ensures
        scan_num(code, file, st, text, is_float) is Ok ==> scan_num(code, file, st, text, is_float)->Ok_0.0.tokens == st.tokens,
        scan_num(code, file, st, text, is_float) is Ok ==> scan_num(code, file, st, text, is_float)->Ok_0.0.line == st.line,
        scan_num(code, file, st, text, is_float) is Ok ==> scan_num(code, file, st, text, is_float)->Ok_0.0.pos >= st.pos,
        scan_num(code, file, st, text, is_float) is Ok ==> scan_num(code, file, st, text, is_float)->Ok_0.0.pos <= (if st.pos > code.len() { st.pos } else { code.len() as int }),
    decreases code.len() - st.pos,
{
    let c = cur(code, st);
    if is_digit_char(c) || c == '.' {
        if c == '.' {
            if nxt(code, st) != '.' && !is_float {
                lemma_scan_num_tokens(code, file, st_adv(st), text.push(c), true);
            }
        } else {
            let s1 = st_adv(st);
            if !at_end(code, s1) {
                lemma_scan_num_tokens(code, file, s1, text.push(c), is_float);
            }
        }
    }
}

proof fn lemma_scan_radix_tokens(code: Seq<char>, st: LexState, text: Seq<char>, radix: u32)
    ensures
        scan_radix(code, st, text, radix).0.tokens == st.tokens,
        scan_radix(code, st, text, radix).0.line == st.line,
        scan_radix(code, st, text, radix).0.pos >= st.pos,
        scan_radix(code, st, text, radix).0.pos <= (if st.pos > code.len() { st.pos } else { code.len() as int }),
    decreases code.len() - st.pos,
{
    let c = cur(code, st);
    if is_radix_digit(c, radix) && !at_end(code, st) {
        let s1 = st_adv(st);
        if !at_end(code, s1) {
            lemma_scan_radix_tokens(code, s1, text.push(c), radix);
        }
    }
}

proof fn lemma_scan_ident_tokens(code: Seq<char>, st: LexState, text: Seq<char>)
    ensures
        scan_ident(code, st, text) is Some ==> scan_ident(code, st, text)->Some_0.0.tokens == st.tokens,
        scan_ident(code, st, text) is Some ==> scan_ident(code, st, text)->Some_0.0.line == st.line,
        scan_ident(code, st, text) is Some ==> scan_ident(code, st, text)->Some_0.0.pos >= st.pos,
        scan_ident(code, st, text) is Some ==> scan_ident(code, st, text)->Some_0.0.pos <= (if st.pos > code.len() { st.pos } else { code.len() as int }),
    decreases code.len() - st.pos,
{
    if id_char(code, st) == Some(true) {
        let s1 = st_adv(st);
        if !(at_end(code, s1) || at_end(code, st)) {
            lemma_scan_ident_tokens(code, s1, text.push(cur(code, st)));
        }
    }
}

proof fn lemma_line_comment_tokens(code: Seq<char>, st: LexState)
    ensures
        line_comment(code, st).tokens == st.tokens,
        line_comment(code, st).line == st.line + 1,
        line_comment(code, st).pos >= st.pos,
        line_comment(code, st).pos <= (if st.pos > code.len() { st.pos } else { code.len() as int }),
    decreases code.len() - st.pos,
{
    if !matches_char(code, st, '\n') && !at_end(code, st) {
        lemma_line_comment_tokens(code, st_adv(st));
    }
}

proof fn lemma_block_comment_tokens(code: Seq<char>, st: LexState)
    ensures
        block_comment(code, st).tokens == st.tokens,
        block_comment(code, st).line >= st.line,
        block_comment(code, st).line - st.line <= block_comment(code, st).pos - st.pos,
        block_comment(code, st).pos <= (if st.pos > code.len() { st.pos } else { code.len() as int }) + 2,
    decreases code.len() - st.pos,
{
    if !((cur(code, st) == '*' && nxt(code, st) == '/') || at_end(code, st)) {
        if matches_char(code, st, '\n') {
            lemma_block_comment_tokens(code, st_newline(st_adv(st)));
        } else {
            lemma_block_comment_tokens(code, st_adv(st));
        }
    }
}

proof fn lemma_step_ids(code: Seq<char>, file: String, st: LexState)
    requires
        ids_not_keywords(st.tokens),
    ensures
        lex_step(code, file, st) is Ok ==> ids_not_keywords(lex_step(code, file, st)->Ok_0.tokens),
{
    let ch = cur(code, st);
    let s = st_adv(st);
    lemma_line_comment_tokens(code, st_adv(s));
    lemma_block_comment_tokens(code, st_adv(s));
    lemma_scan_str_tokens(code, file, s, Seq::empty());
    lemma_scan_num_tokens(code, file, s, seq![ch], false);
    lemma_scan_radix_tokens(code, st_adv(s), "0x"@, 16);
    lemma_scan_radix_tokens(code, st_adv(s), "0o"@, 8);
    lemma_scan_radix_tokens(code, st_adv(s), "0b"@, 2);
    lemma_scan_ident_tokens(code, s, seq![ch]);
    assert forall|tv: TokenView| tv.tk_type != TokenKind::Id || keyword_kind(tv.value) is None implies #[trigger] ids_not_keywords(st.tokens.push(tv)) by {
        assert forall|i: int| 0 <= i < st.tokens.push(tv).len() && #[trigger] st.tokens.push(tv)[i].tk_type == TokenKind::Id implies keyword_kind(st.tokens.push(tv)[i].value) is None by {
            if i < st.tokens.len() {
                assert(st.tokens.push(tv)[i] == st.tokens[i]);
            }
        }
    }
}

proof fn lemma_run_ids(code: Seq<char>, file: String, st: LexState)
    requires
        ids_not_keywords(st.tokens),
    ensures
        lex_run(code, file, st) is Ok ==> ids_not_keywords(lex_run(code, file, st)->Ok_0),
    decreases code.len() + 2 - st.pos,
{
    if st.pos < code.len() {
        lemma_step_ids(code, file, st);
        match lex_step(code, file, st) {
            Ok(s2) => {
                if st.pos < s2.pos <= code.len() + 2 {
                    lemma_run_ids(code, file, s2);
                }
            },
            Err(f) => {},
        }
    }
}

/// The character `c` occurs in the source.
pub open spec fn char_in_source(code: Seq<char>, c: char) -> bool {
    exists|p: int| 0 <= p < code.len() && code[p] == c
}

/// Every operator token of `ts` is one character, read from the source.
pub open spec fn ops_read_from_source(ts: Seq<TokenView>, code: Seq<char>) -> bool {
    forall|i: int| 0 <= i < ts.len() && #[trigger] ts[i].tk_type == TokenKind::Op ==> {
        &&& ts[i].value.len() == 1
        &&& char_in_source(code, ts[i].value[0])
    }
}

/// Every compound assignment token of `ts` holds the two characters it was
/// written with.
pub open spec fn assign_tokens_spelled(ts: Seq<TokenView>) -> bool {
    forall|i: int| 0 <= i < ts.len() ==> {
        &&& #[trigger] ts[i].tk_type == TokenKind::AssignAdd ==> ts[i].value == "+="@
        &&& ts[i].tk_type == TokenKind::AssignSub ==> ts[i].value == "-="@
        &&& ts[i].tk_type == TokenKind::AssignMul ==> ts[i].value == "*="@
        &&& ts[i].tk_type == TokenKind::AssignDiv ==> ts[i].value == "/="@
    }
}

/// A token that keeps both properties above when it is added.
pub open spec fn spelled_token(tv: TokenView, code: Seq<char>) -> bool {
    &&& tv.tk_type == TokenKind::Op ==> tv.value.len() == 1 && char_in_source(code, tv.value[0])
    &&& tv.tk_type == TokenKind::AssignAdd ==> tv.value == "+="@
    &&& tv.tk_type == TokenKind::AssignSub ==> tv.value == "-="@
    &&& tv.tk_type == TokenKind::AssignMul ==> tv.value == "*="@
    &&& tv.tk_type == TokenKind::AssignDiv ==> tv.value == "/="@
}

proof fn lemma_push_spelled(ts: Seq<TokenView>, tv: TokenView, code: Seq<char>)
    requires
        ops_read_from_source(ts, code),
        assign_tokens_spelled(ts),
        spelled_token(tv, code),
    ensures
        ops_read_from_source(ts.push(tv), code),
        assign_tokens_spelled(ts.push(tv)),
{
    assert forall|i: int| 0 <= i < ts.push(tv).len() && #[trigger] ts.push(tv)[i].tk_type == TokenKind::Op implies {
        &&& ts.push(tv)[i].value.len() == 1
        &&& char_in_source(code, ts.push(tv)[i].value[0])
    } by {
        if i < ts.len() {
            assert(ts.push(tv)[i] == ts[i]);
        }
    }
    assert forall|i: int| 0 <= i < ts.push(tv).len() implies {
        &&& #[trigger] ts.push(tv)[i].tk_type == TokenKind::AssignAdd ==> ts.push(tv)[i].value == "+="@
        &&& ts.push(tv)[i].tk_type == TokenKind::AssignSub ==> ts.push(tv)[i].value == "-="@
        &&& ts.push(tv)[i].tk_type == TokenKind::AssignMul ==> ts.push(tv)[i].value == "*="@
        &&& ts.push(tv)[i].tk_type == TokenKind::AssignDiv ==> ts.push(tv)[i].value == "/="@
    } by {
        if i < ts.len() {
            assert(ts.push(tv)[i] == ts[i]);
        }
    }
}

proof fn lemma_step_spelled(code: Seq<char>, file: String, st: LexState)
    requires
        0 <= st.pos < code.len(),
        ops_read_from_source(st.tokens, code),
        assign_tokens_spelled(st.tokens),
    ensures
        lex_step(code, file, st) is Ok ==> {
            &&& ops_read_from_source(lex_step(code, file, st)->Ok_0.tokens, code)
            &&& assign_tokens_spelled(lex_step(code, file, st)->Ok_0.tokens)
        },
{
    let ch = cur(code, st);
    let s = st_adv(st);
    lemma_line_comment_tokens(code, st_adv(s));
    lemma_block_comment_tokens(code, st_adv(s));
    lemma_scan_str_tokens(code, file, s, Seq::empty());
    lemma_scan_num_tokens(code, file, s, seq![ch], false);
    lemma_scan_radix_tokens(code, st_adv(s), "0x"@, 16);
    lemma_scan_radix_tokens(code, st_adv(s), "0o"@, 8);
    lemma_scan_radix_tokens(code, st_adv(s), "0b"@, 2);
    lemma_scan_ident_tokens(code, s, seq![ch]);
    assert(code[st.pos] == ch);
    assert(char_in_source(code, ch));
    reveal_strlit("+");
    reveal_strlit("-");
    reveal_strlit("*");
    reveal_strlit("/");
    reveal_strlit("%");
    reveal_strlit("&");
    reveal_strlit("|");
    reveal_strlit("^");
    assert forall|x: LexState, k: TokenKind, txt: Seq<char>| x.tokens == st.tokens && spelled_token(
        TokenView { tk_type: k, value: txt, address: st_addr(file, x) },
        code,
    ) implies {
        &&& ops_read_from_source(#[trigger] st_push(file, x, k, txt).tokens, code)
        &&& assign_tokens_spelled(st_push(file, x, k, txt).tokens)
    } by {
        lemma_push_spelled(st.tokens, TokenView { tk_type: k, value: txt, address: st_addr(file, x) }, code);
    }
}

proof fn lemma_run_spelled(code: Seq<char>, file: String, st: LexState)
    requires
        0 <= st.pos,
        ops_read_from_source(st.tokens, code),
        assign_tokens_spelled(st.tokens),
    ensures
        lex_run(code, file, st) is Ok ==> {
            &&& ops_read_from_source(lex_run(code, file, st)->Ok_0, code)
            &&& assign_tokens_spelled(lex_run(code, file, st)->Ok_0)
        },
    decreases code.len() + 2 - st.pos,
{
    if st.pos < code.len() {
        lemma_step_spelled(code, file, st);
        match lex_step(code, file, st) {
            Ok(s2) => {
                if st.pos < s2.pos <= code.len() + 2 {
                    lemma_run_spelled(code, file, s2);
                }
            },
            Err(f) => {},
        }
    }
}

/// Every operator token is the one character of the source it was read
/// from, and every compound assignment token holds the two characters it
/// was written with (`+=`, `-=`, `*=` or `/=`).
pub proof fn law_operator_tokens_are_spelled_as_read(code: Seq<char>, file: String)
    ensures
        spec_lex(code, file) is Ok ==> {
            &&& ops_read_from_source(spec_lex(code, file)->Ok_0, code)
            &&& assign_tokens_spelled(spec_lex(code, file)->Ok_0)
        },
{
    lemma_run_spelled(code, file, initial_lex_state());
}

/// The tokens of `ts` come in order of their lines, none past `line`.
pub open spec fn lines_in_order(ts: Seq<TokenView>, line: int) -> bool {
    &&& forall|i: int, j: int| 0 <= i < j < ts.len() ==> #[trigger] ts[i].address.line <= #[trigger] ts[j].address.line
    &&& forall|i: int| 0 <= i < ts.len() ==> #[trigger] ts[i].address.line <= line
}

proof fn lemma_step_lines(code: Seq<char>, file: String, st: LexState)
    requires
        st.line <= st.pos + 1,
        0 <= st.pos < code.len(),
    ensures
        lex_step(code, file, st) is Ok ==> {
            let s2 = lex_step(code, file, st)->Ok_0;
            &&& s2.line >= st.line
            &&& s2.line <= s2.pos + 1
            &&& s2.pos > st.pos
            &&& s2.pos <= code.len() + 3
            &&& (s2.tokens == st.tokens || (s2.tokens.len() == st.tokens.len() + 1
                && s2.tokens.subrange(0, st.tokens.len() as int) == st.tokens
                && s2.tokens[st.tokens.len() as int].address.line == s2.line as u64))
        },
{
    let ch = cur(code, st);
    let s = st_adv(st);
    lemma_line_comment_tokens(code, st_adv(s));
    lemma_block_comment_tokens(code, st_adv(s));
    lemma_scan_str_tokens(code, file, s, Seq::empty());
    lemma_scan_num_tokens(code, file, s, seq![ch], false);
    lemma_scan_radix_tokens(code, st_adv(s), "0x"@, 16);
    lemma_scan_radix_tokens(code, st_adv(s), "0o"@, 8);
    lemma_scan_radix_tokens(code, st_adv(s), "0b"@, 2);
    lemma_scan_ident_tokens(code, s, seq![ch]);
    assert forall|x: LexState, k: TokenKind, t: Seq<char>| x.tokens == st.tokens implies {
        let y = #[trigger] st_push(file, x, k, t);
        &&& y.tokens.len() == st.tokens.len() + 1
        &&& y.tokens.subrange(0, st.tokens.len() as int) == st.tokens
        &&& y.tokens[st.tokens.len() as int].address.line == x.line as u64
    } by {
        assert(st_push(file, x, k, t).tokens.subrange(0, st.tokens.len() as int) =~= st.tokens);
    }
}

proof fn lemma_run_lines(code: Seq<char>, file: String, st: LexState)
    requires
        st.line <= st.pos + 1,
        0 <= st.line,
        0 <= st.pos <= code.len() + 2,
        code.len() + 4 <= u64::MAX,
        lines_in_order(st.tokens, st.line),
    ensures
        lex_run(code, file, st) is Ok ==> lines_in_order(lex_run(code, file, st)->Ok_0, u64::MAX as int),
    decreases code.len() + 2 - st.pos,
{
    if st.pos >= code.len() {
        assert(lines_in_order(st.tokens, u64::MAX as int)) by {
            assert forall|i: int| 0 <= i < st.tokens.len() implies #[trigger] st.tokens[i].address.line <= u64::MAX as int by {
            }
        }
    } else {
        lemma_step_lines(code, file, st);
        match lex_step(code, file, st) {
            Ok(s2) => {
                if st.pos < s2.pos <= code.len() + 2 {
                    assert(lines_in_order(s2.tokens, s2.line)) by {
                        if s2.tokens != st.tokens {
                            let n = st.tokens.len() as int;
                            assert forall|i: int| 0 <= i < n implies #[trigger] s2.tokens[i] == st.tokens[i] by {
                                assert(s2.tokens.subrange(0, n)[i] == st.tokens[i]);
                            }
                            assert(s2.line as u64 == s2.line);
                        }
                    }
                    lemma_run_lines(code, file, s2);
                } else {
                    assert(lines_in_order(s2.tokens, u64::MAX as int)) by {
                        if s2.tokens != st.tokens {
                            let n = st.tokens.len() as int;
                            assert forall|i: int| 0 <= i < n implies #[trigger] s2.tokens[i] == st.tokens[i] by {
                                assert(s2.tokens.subrange(0, n)[i] == st.tokens[i]);
                            }
                            assert(s2.line as u64 == s2.line);
                        }
                    }
                }
            },
            Err(_) => {},
        }
    }
}

/// The tokens come out in source order: their lines never decrease (for
/// any text whose line count fits the address type).
pub proof fn law_token_lines_never_decrease(code: Seq<char>, file: String)
    requires
        code.len() + 4 <= u64::MAX,
    ensures
        spec_lex(code, file) is Ok ==> forall|i: int, j: int| 0 <= i < j < spec_lex(code, file)->Ok_0.len()
            ==> #[trigger] spec_lex(code, file)->Ok_0[i].address.line <= #[trigger] spec_lex(code, file)->Ok_0[j].address.line,
{
    lemma_run_lines(code, file, initial_lex_state());
}

/// A character that can stand in a word: a letter, a digit, `_` or `:`.
pub open spec fn word_char(c: char) -> bool {
    is_letter_char(c) || is_digit_char(c) || c == ':'
}

/// Every token of kind `Id` in `ts` is a non-empty run of word characters
/// that starts with a letter.
pub open spec fn ids_are_words(ts: Seq<TokenView>) -> bool {
    forall|i: int| 0 <= i < ts.len() && #[trigger] ts[i].tk_type == TokenKind::Id ==> {
        &&& ts[i].value.len() > 0
        &&& is_letter_char(ts[i].value[0])
        &&& forall|j: int| 0 <= j < ts[i].value.len() ==> word_char(#[trigger] ts[i].value[j])
    }
}

proof fn lemma_scan_ident_word(code: Seq<char>, st: LexState, text: Seq<char>)
    requires
        text.len() > 0,
        is_letter_char(text[0]),
        forall|j: int| 0 <= j < text.len() ==> word_char(#[trigger] text[j]),
    ensures
        scan_ident(code, st, text) is Some ==> {
            let t = scan_ident(code, st, text)->Some_0.1;
            &&& t.len() > 0
            &&& is_letter_char(t[0])
            &&& forall|j: int| 0 <= j < t.len() ==> word_char(#[trigger] t[j])
        },
    decreases code.len() - st.pos,
{
    if id_char(code, st) == Some(true) {
        let t1 = text.push(cur(code, st));
        assert(word_char(cur(code, st)));
        assert forall|j: int| 0 <= j < t1.len() implies word_char(#[trigger] t1[j]) by {
            if j < text.len() {
                assert(t1[j] == text[j]);
            }
        }
        let s1 = st_adv(st);
        if !(at_end(code, s1) || at_end(code, st)) {
            lemma_scan_ident_word(code, s1, t1);
        }
    }
}

proof fn lemma_step_words(code: Seq<char>, file: String, st: LexState)
    requires
        ids_are_words(st.tokens),
    ensures
        lex_step(code, file, st) is Ok ==> ids_are_words(lex_step(code, file, st)->Ok_0.tokens),
{
    let ch = cur(code, st);
    let s = st_adv(st);
    lemma_line_comment_tokens(code, st_adv(s));
    lemma_block_comment_tokens(code, st_adv(s));
    lemma_scan_str_tokens(code, file, s, Seq::empty());
    lemma_scan_num_tokens(code, file, s, seq![ch], false);
    lemma_scan_radix_tokens(code, st_adv(s), "0x"@, 16);
    lemma_scan_radix_tokens(code, st_adv(s), "0o"@, 8);
    lemma_scan_radix_tokens(code, st_adv(s), "0b"@, 2);
    lemma_scan_ident_tokens(code, s, seq![ch]);
    if is_letter_char(ch) {
        lemma_scan_ident_word(code, s, seq![ch]);
    }
    assert forall|tv: TokenView| tv.tk_type != TokenKind::Id || (tv.value.len() > 0 && is_letter_char(tv.value[0])
        && forall|j: int| 0 <= j < tv.value.len() ==> word_char(#[trigger] tv.value[j]))
        implies #[trigger] ids_are_words(st.tokens.push(tv)) by {
        assert forall|i: int| 0 <= i < st.tokens.push(tv).len() && #[trigger] st.tokens.push(tv)[i].tk_type == TokenKind::Id implies {
            &&& st.tokens.push(tv)[i].value.len() > 0
            &&& is_letter_char(st.tokens.push(tv)[i].value[0])
            &&& forall|j: int| 0 <= j < st.tokens.push(tv)[i].value.len() ==> word_char(#[trigger] st.tokens.push(tv)[i].value[j])
        } by {
            if i < st.tokens.len() {
                assert(st.tokens.push(tv)[i] == st.tokens[i]);
            }
        }
    }
}

proof fn lemma_run_words(code: Seq<char>, file: String, st: LexState)
    requires
        ids_are_words(st.tokens),
    ensures
        lex_run(code, file, st) is Ok ==> ids_are_words(lex_run(code, file, st)->Ok_0),
    decreases code.len() + 2 - st.pos,
{
    if st.pos < code.len() {
        lemma_step_words(code, file, st);
        match lex_step(code, file, st) {
            Ok(s2) => {
                if st.pos < s2.pos <= code.len() + 2 {
                    lemma_run_words(code, file, s2);
                }
            },
            Err(f) => {},
        }
    }
}

/// Every identifier token is a word of the source: a non-empty run of
/// letters, digits, `_` and `:` that starts with a letter.
pub proof fn law_identifiers_are_words(code: Seq<char>, file: String)
    ensures
        spec_lex(code, file) is Ok ==> ids_are_words(spec_lex(code, file)->Ok_0),
{
    lemma_run_words(code, file, initial_lex_state());
}

/// A word that spells a reserved word always lexes to that keyword's kind:
/// no identifier token spells a reserved word.
pub proof fn law_identifiers_are_not_keywords(code: Seq<char>, file: String)
    ensures
        spec_lex(code, file) is Ok ==> ids_not_keywords(spec_lex(code, file)->Ok_0),
{
    lemma_run_ids(code, file, initial_lex_state());
}

// ---------------------------------------------------------------------------
// The lexer.
// ---------------------------------------------------------------------------

/// Why [`Lexer::try_lex`] gave no token list.
#[derive(Debug)]
pub enum LexFailure {
    /// A lexical error (unexpected character, unclosed string, ...).
    Failed(Error),
    /// The source holds `::` right after an identifier character, where the
    /// identifier check recurses without end.
    Endless,
}

impl View for LexFailure {
    type V = LexFault;

    open spec fn view(&self) -> LexFault {
        match self {
            LexFailure::Failed(e) => LexFault::Failed(e@),
            LexFailure::Endless => LexFault::Endless,
        }
    }
}

/// The kind of a reserved word, `None` for any other text.
pub fn keyword(text: &str) -> (r: Option<TokenKind>)
    ensures
        r == keyword_kind(text@),
{
    if str_equals(text, "fn") {
        Some(TokenKind::Fn)
    } else if str_equals(text, "break") {
        Some(TokenKind::Break)
    } else if str_equals(text, "if") {
        Some(TokenKind::If)
    } else if str_equals(text, "elif") {
        Some(TokenKind::Elif)
    } else if str_equals(text, "else") {
        Some(TokenKind::Else)
    } else if str_equals(text, "and") {
        Some(TokenKind::And)
    } else if str_equals(text, "or") {
        Some(TokenKind::Or)
    } else if str_equals(text, "import") {
        Some(TokenKind::Import)
    } else if str_equals(text, "type") {
        Some(TokenKind::Type)
    } else if str_equals(text, "new") {
        Some(TokenKind::New)
    } else if str_equals(text, "match") {
        Some(TokenKind::Match)
    } else if str_equals(text, "case") {
        Some(TokenKind::Case)
    } else if str_equals(text, "default") {
        Some(TokenKind::Default)
    } else if str_equals(text, "lambda") {
        Some(TokenKind::Lambda)
    } else if str_equals(text, "while") {
        Some(TokenKind::While)
    } else if str_equals(text, "unit") {
        Some(TokenKind::Unit)
    } else if str_equals(text, "for") {
        Some(TokenKind::For)
    } else if str_equals(text, "in") {
        Some(TokenKind::In)
    } else if str_equals(text, "continue") {
        Some(TokenKind::Continue)
    } else if str_equals(text, "true") {
        Some(TokenKind::Bool)
    } else if str_equals(text, "false") {
        Some(TokenKind::Bool)
    } else if str_equals(text, "null") {
        Some(TokenKind::Null)
    } else if str_equals(text, "return") {
        Some(TokenKind::Ret)
    } else if str_equals(text, "trait") {
        Some(TokenKind::Trait)
    } else if str_equals(text, "impl") {
        Some(TokenKind::Impl)
    } else if str_equals(text, "native") {
        Some(TokenKind::Native)
    } else if str_equals(text, "impls") {
        Some(TokenKind::Impls)
    } else if str_equals(text, "with") {
        Some(TokenKind::With)
    } else {
        None
    }
}

/// Turns source characters into tokens.
pub struct Lexer<'cursor> {
    line: u64,
    column: u16,
    cursor: Cursor<'cursor>,
    file_path: String,
    tokens: Vec<Token>,
}

impl<'cursor> Lexer<'cursor> {
    /// The characters being read.
    pub closed spec fn source(&self) -> Seq<char> {
        self.cursor.code@
    }

    /// The file name written into token addresses.
    pub closed spec fn file(&self) -> String {
        self.file_path
    }

    /// Position, counters and tokens so far.
    pub closed spec fn state(&self) -> LexState {
        LexState {
            pos: self.cursor.current as int,
            line: self.line as int,
            column: self.column,
            tokens: tokens_view(self.tokens@),
        }
    }

    /// The source is short enough for every position to fit in `usize`.
    pub closed spec fn fits(&self) -> bool {
        self.cursor.code@.len() + 4 <= usize::MAX
    }

    closed spec fn same_input(&self, other: &Self) -> bool {
        &&& self.cursor.code@ == other.cursor.code@
        &&& self.file_path == other.file_path
    }

    proof fn lemma_push_view(ts: Seq<Token>, t: Token)
        ensures
            tokens_view(ts.push(t)) == tokens_view(ts).push(t@),
    {
        assert(tokens_view(ts.push(t)) =~= tokens_view(ts).push(t@));
    }

    /// Creates a lexer over `code`; tokens carry `file_path` in their address.
    pub fn new(code: &'cursor [char], file_path: String) -> (r: Self)
        requires
            code@.len() + 4 <= usize::MAX,
        ensures
            r.source() == code@,
            r.file() == file_path,
            r.state() == initial_lex_state(),
            r.fits(),
    {
        let r = Lexer { line: 1, column: 0, cursor: Cursor::new(code), file_path, tokens: Vec::new() };
        assert(tokens_view(r.tokens@) =~= Seq::<TokenView>::empty());
        r
    }

    /// Eats the current character and returns it.
    fn advance(&mut self) -> (ch: char)
        requires
            old(self).fits(),
            old(self).cursor.current <= old(self).source().len() + 2,
        ensures
            final(self).same_input(old(self)),
            final(self).fits(),
            final(self).state() == st_adv(old(self).state()),
            ch == cur(old(self).source(), old(self).state()),
    {
        let ch: char = self.cursor.char_at(0);
        self.cursor.current = self.cursor.current + 1;
        self.column = self.column.wrapping_add(1);
        ch
    }

    /// Eats the current character when it is `ch`.
    fn is_match(&mut self, ch: char) -> (r: bool)
        requires
            old(self).fits(),
            old(self).cursor.current <= old(self).source().len() + 2,
        ensures
            final(self).same_input(old(self)),
            final(self).fits(),
            r == matches_char(old(self).source(), old(self).state(), ch),
            final(self).state() == if r { st_adv(old(self).state()) } else { old(self).state() },
    {
        if !self.cursor.is_at_end() && self.cursor.char_at(0) == ch {
            self.advance();
            return true;
        }
        false
    }

    /// Moves the counters to the start of the next line.
    fn new_line(&mut self)
        requires
            old(self).line < u64::MAX,
        ensures
            final(self).same_input(old(self)),
            final(self).fits() == old(self).fits(),
            final(self).state() == st_newline(old(self).state()),
            final(self).cursor.current == old(self).cursor.current,
    {
        self.line = self.line + 1;
        self.column = 0;
    }

    /// The address of the current position.
    fn here(&self) -> (r: Address)
        ensures
            r == st_addr(self.file(), self.state()),
    {
        Address::new(self.line, self.column, self.file_path.clone())
    }

    /// Appends a token of `tk_type` with text `tk_value` at the current position.
    fn add_tk(&mut self, tk_type: TokenKind, tk_value: &str)
        ensures
            final(self).same_input(old(self)),
            final(self).fits() == old(self).fits(),
            final(self).state() == st_push(old(self).file(), old(self).state(), tk_type, tk_value@),
            final(self).cursor.current == old(self).cursor.current,
            final(self).line == old(self).line,
    {
        let tk = Token::new(tk_type, string_of(tk_value), self.here());
        proof {
            Self::lemma_push_view(self.tokens@, tk);
        }
        self.tokens.push(tk);
    }

    /// Appends an already built token.
    fn push_token(&mut self, tk: Token)
        ensures
            final(self).same_input(old(self)),
            final(self).fits() == old(self).fits(),
            final(self).state() == (LexState { tokens: old(self).state().tokens.push(tk@), ..old(self).state() }),
            final(self).cursor.current == old(self).cursor.current,
            final(self).line == old(self).line,
    {
        proof {
            Self::lemma_push_view(self.tokens@, tk);
        }
        self.tokens.push(tk);
    }

    /// Checks character is '0..9'
    fn is_digit(&self, ch: char) -> (r: bool)
        ensures
            r == is_digit_char(ch),
    {
        ch >= '0' && ch <= '9'
    }

    /// Checks character is 'a..z', 'A..Z', '_'
    fn is_letter(&self, ch: char) -> (r: bool)
        ensures
            r == is_letter_char(ch),
    {
        (ch >= 'a' && ch <= 'z') || (ch >= 'A' && ch <= 'Z') || ch == '_'
    }

    /// Whether `ch` continues an identifier: a letter, a digit, or a colon
    /// followed by a letter or digit. `None` where the check `is_id` would
    /// recurse without end (a colon followed by a colon).
    fn is_id(&self, ch: char) -> (r: Option<bool>)
        requires
            self.cursor.current < usize::MAX,
        ensures
            r == id_check(ch, nxt(self.source(), self.state())),
    {
        if self.is_letter(ch) || self.is_digit(ch) {
            Some(true)
        } else if ch == ':' {
            let n = self.cursor.next();
            if self.is_letter(n) || self.is_digit(n) {
                Some(true)
            } else if n == ':' {
                None
            } else {
                Some(false)
            }
        } else {
            Some(false)
        }
    }

    /// Scans a string literal, the opening quote already eaten; eats the
    /// closing quote.
    fn scan_string(&mut self) -> (r: Result<Token, Error>)
        requires
            old(self).fits(),
            old(self).cursor.current <= old(self).source().len(),
        ensures
            final(self).same_input(old(self)),
            final(self).fits(),
            match r {
                Ok(tk) => {
                    &&& scan_str(old(self).source(), old(self).file(), old(self).state(), Seq::empty()) matches Ok((s2, t))
                    &&& final(self).state() == st_adv(s2)
                    &&& tk@ == (TokenView { tk_type: TokenKind::Text, value: t, address: st_addr(old(self).file(), st_adv(s2)) })
                    &&& s2.pos < old(self).source().len()
                    &&& s2.line == old(self).state().line
                    &&& s2.tokens == old(self).state().tokens
                    &&& s2.pos >= old(self).state().pos
                },
                Err(e) => scan_str(old(self).source(), old(self).file(), old(self).state(), Seq::empty()) == Err::<(LexState, Seq<char>), ErrorView>(e@),
            },
    {
        let ghost src = self.source();
        let ghost file = self.file();
        let ghost st0 = self.state();
        let mut text: String = String::new();
        let mut unclosed: bool = false;
        while self.cursor.peek() != '\''
            invariant_except_break
                scan_str(src, file, self.state(), text@) == scan_str(src, file, st0, Seq::empty()),
                self.cursor.current <= src.len(),
                !unclosed,
            invariant
                self.source() == src,
                self.file() == file,
                self.fits(),
                self.cursor.current <= src.len() + 1,
                self.cursor.current >= st0.pos,
                self.state().line == st0.line,
                self.state().tokens == st0.tokens,
            ensures
                unclosed ==> scan_str(src, file, st0, Seq::empty()) == Err::<(LexState, Seq<char>), ErrorView>(
                    error_of(st_addr(file, self.state()), "unclosed string quotes."@, "did you forget ' symbol?"@)),
                !unclosed ==> scan_str(src, file, self.state(), text@) == scan_str(src, file, st0, Seq::empty())
                    && cur(src, self.state()) == '\''
                    && self.cursor.current < src.len(),
            decreases src.len() - self.cursor.current,
        {
            let ch = self.advance();
            if ch == '\\' && self.cursor.peek() == '\'' {
                let quote = self.advance();
                push_char(&mut text, quote);
            } else {
                push_char(&mut text, ch);
            }
            if self.cursor.is_at_end() || self.is_match('\n') {
                unclosed = true;
                break;
            }
        }
        if unclosed {
            return Err(Error::new(self.here(), "unclosed string quotes.", "did you forget ' symbol?"));
        }
        let ghost s2 = self.state();
        self.advance();
        Ok(Token { tk_type: TokenKind::Text, value: text, address: self.here() })
    }

    /// Scans decimal and integer numbers; `start` is the first digit, already eaten.
    fn scan_number(&mut self, start: char) -> (r: Result<Token, Error>)
        requires
            old(self).fits(),
            old(self).cursor.current <= old(self).source().len(),
        ensures
            final(self).same_input(old(self)),
            final(self).fits(),
            match r {
                Ok(tk) => {
                    &&& scan_num(old(self).source(), old(self).file(), old(self).state(), seq![start], false) matches Ok((s2, t))
                    &&& final(self).state() == s2
                    &&& tk@ == (TokenView { tk_type: TokenKind::Number, value: t, address: st_addr(old(self).file(), s2) })
                    &&& s2.pos <= old(self).source().len()
                    &&& s2.line == old(self).state().line
                    &&& s2.tokens == old(self).state().tokens
                    &&& s2.pos >= old(self).state().pos
                },
                Err(e) => scan_num(old(self).source(), old(self).file(), old(self).state(), seq![start], false) == Err::<(LexState, Seq<char>), ErrorView>(e@),
            },
    {
        let ghost src = self.source();
        let ghost file = self.file();
        let ghost st0 = self.state();
        let mut text: String = String::new();
        push_char(&mut text, start);
        let mut is_float: bool = false;
        let mut two_dots: bool = false;
        loop
            invariant_except_break
                scan_num(src, file, self.state(), text@, is_float) == scan_num(src, file, st0, seq![start], false),
                !two_dots,
            invariant
                self.source() == src,
                self.file() == file,
                self.fits(),
                self.cursor.current <= src.len(),
                self.cursor.current >= st0.pos,
                self.state().line == st0.line,
                self.state().tokens == st0.tokens,
            ensures
                two_dots ==> scan_num(src, file, st0, seq![start], false) == Err::<(LexState, Seq<char>), ErrorView>(
                    error_of(st_addr(file, self.state()), "couldn't parse number with two dots"@, "check your code."@)),
                !two_dots ==> scan_num(src, file, st0, seq![start], false) == Ok::<(LexState, Seq<char>), ErrorView>((self.state(), text@)),
            decreases src.len() - self.cursor.current,
        {
            let c = self.cursor.peek();
            if !(self.is_digit(c) || c == '.') {
                break;
            }
            if c == '.' {
                if self.cursor.next() == '.' {
                    break;
                }
                if is_float {
                    two_dots = true;
                    break;
                }
                is_float = true;
                let d = self.advance();
                push_char(&mut text, d);
                continue;
            }
            let d = self.advance();
            push_char(&mut text, d);
            if self.cursor.is_at_end() {
                break;
            }
        }
        if two_dots {
            return Err(Error::new(self.here(), "couldn't parse number with two dots", "check your code."));
        }
        Ok(Token { tk_type: TokenKind::Number, value: text, address: self.here() })
    }

    /// Eats the digits of a number in base `radix`, after the text `prefix`.
    fn scan_radix_digits(&mut self, prefix: &str, radix: u32) -> (r: Token)
        requires
            old(self).fits(),
            old(self).cursor.current <= old(self).source().len() + 1,
        ensures
            final(self).same_input(old(self)),
            final(self).fits(),
            ({
                let (s2, t) = scan_radix(old(self).source(), old(self).state(), prefix@, radix);
                &&& final(self).state() == s2
                &&& r@ == (TokenView { tk_type: TokenKind::Number, value: t, address: st_addr(old(self).file(), s2) })
                &&& s2.pos <= old(self).source().len() + 1
                &&& s2.line == old(self).state().line
                &&& s2.tokens == old(self).state().tokens
                &&& s2.pos >= old(self).state().pos
            }),
    {
        let ghost src = self.source();
        let ghost st0 = self.state();
        let mut text: String = string_of(prefix);
        loop
            invariant_except_break
                scan_radix(src, self.state(), text@, radix) == scan_radix(src, st0, prefix@, radix),
            invariant
                self.source() == src,
                self.file() == old(self).file(),
                self.fits(),
                self.cursor.current <= src.len() + 1,
                self.cursor.current >= st0.pos,
                self.state().line == st0.line,
                self.state().tokens == st0.tokens,
            ensures
                scan_radix(src, st0, prefix@, radix) == (self.state(), text@),
            decreases src.len() + 1 - self.cursor.current,
        {
            let c = self.cursor.peek();
            let ok = if radix == 16 {
                self.is_digit(c) || (c >= 'a' && c <= 'f') || (c >= 'A' && c <= 'F')
            } else if radix == 8 {
                c >= '0' && c <= '7'
            } else {
                c >= '0' && c <= '1'
            };
            if !(ok && !self.cursor.is_at_end()) {
                break;
            }
            let d = self.advance();
            push_char(&mut text, d);
            if self.cursor.is_at_end() {
                break;
            }
        }
        Token { tk_type: TokenKind::Number, value: text, address: self.here() }
    }

    /// Scans hexadecimal numbers `0x{pattern}`; the cursor is on the `x`.
    fn scan_hexadecimal_number(&mut self) -> (r: Token)
        requires
            old(self).fits(),
            old(self).cursor.current <= old(self).source().len(),
        ensures
            final(self).same_input(old(self)),
            final(self).fits(),
            ({
                let (s2, t) = scan_radix(old(self).source(), st_adv(old(self).state()), "0x"@, 16);
                &&& final(self).state() == s2
                &&& r@ == (TokenView { tk_type: TokenKind::Number, value: t, address: st_addr(old(self).file(), s2) })
                &&& s2.pos <= old(self).source().len() + 1
                &&& s2.line == old(self).state().line
                &&& s2.tokens == old(self).state().tokens
                &&& s2.pos > old(self).state().pos
            }),
    {
        self.advance();
        self.scan_radix_digits("0x", 16)
    }

    /// Scans octal numbers `0o{pattern}`; the cursor is on the `o`.
    fn scan_octal_number(&mut self) -> (r: Token)
        requires
            old(self).fits(),
            old(self).cursor.current <= old(self).source().len(),
        ensures
            final(self).same_input(old(self)),
            final(self).fits(),
            ({
                let (s2, t) = scan_radix(old(self).source(), st_adv(old(self).state()), "0o"@, 8);
                &&& final(self).state() == s2
                &&& r@ == (TokenView { tk_type: TokenKind::Number, value: t, address: st_addr(old(self).file(), s2) })
                &&& s2.pos <= old(self).source().len() + 1
                &&& s2.line == old(self).state().line
                &&& s2.tokens == old(self).state().tokens
                &&& s2.pos > old(self).state().pos
            }),
    {
        self.advance();
        self.scan_radix_digits("0o", 8)
    }

    /// Scans binary numbers `0b{pattern}`; the cursor is on the `b`.
    fn scan_binary_number(&mut self) -> (r: Token)
        requires
            old(self).fits(),
            old(self).cursor.current <= old(self).source().len(),
        ensures
            final(self).same_input(old(self)),
            final(self).fits(),
            ({
                let (s2, t) = scan_radix(old(self).source(), st_adv(old(self).state()), "0b"@, 2);
                &&& final(self).state() == s2
                &&& r@ == (TokenView { tk_type: TokenKind::Number, value: t, address: st_addr(old(self).file(), s2) })
                &&& s2.pos <= old(self).source().len() + 1
                &&& s2.line == old(self).state().line
                &&& s2.tokens == old(self).state().tokens
                &&& s2.pos > old(self).state().pos
            }),
    {
        self.advance();
        self.scan_radix_digits("0b", 2)
    }

    /// Scans an identifier and tells it from a keyword; `start` is its first
    /// character, already eaten. `None` where the identifier check never returns.
    fn scan_id_or_keyword(&mut self, start: char) -> (r: Option<Token>)
        requires
            old(self).fits(),
            old(self).cursor.current <= old(self).source().len(),
        ensures
            final(self).same_input(old(self)),
            final(self).fits(),
            match r {
                Some(tk) => {
                    &&& scan_ident(old(self).source(), old(self).state(), seq![start]) matches Some((s2, t))
                    &&& final(self).state() == s2
                    &&& tk@ == (TokenView { tk_type: word_kind(t), value: t, address: st_addr(old(self).file(), s2) })
                    &&& s2.pos <= old(self).source().len()
                    &&& s2.line == old(self).state().line
                    &&& s2.tokens == old(self).state().tokens
                    &&& s2.pos >= old(self).state().pos
                },
                None => scan_ident(old(self).source(), old(self).state(), seq![start]) is None,
            },
    {
        let ghost src = self.source();
        let ghost st0 = self.state();
        let mut text: String = String::new();
        push_char(&mut text, start);
        let mut endless: bool = false;
        loop
            invariant_except_break
                scan_ident(src, self.state(), text@) == scan_ident(src, st0, seq![start]),
                !endless,
            invariant
                self.source() == src,
                self.file() == old(self).file(),
                self.fits(),
                self.cursor.current <= src.len(),
                self.cursor.current >= st0.pos,
                self.state().line == st0.line,
                self.state().tokens == st0.tokens,
            ensures
                endless ==> scan_ident(src, st0, seq![start]) is None,
                !endless ==> scan_ident(src, st0, seq![start]) == Some((self.state(), text@)),
            decreases src.len() - self.cursor.current,
        {
            let c = self.cursor.peek();
            match self.is_id(c) {
                None => {
                    endless = true;
                    break;
                },
                Some(false) => {
                    break;
                },
                Some(true) => {},
            }
            let d = self.advance();
            push_char(&mut text, d);
            if self.cursor.is_at_end() {
                break;
            }
        }
        if endless {
            return None;
        }
        let tk_type = match keyword(text.as_str()) {
            Some(k) => k,
            None => TokenKind::Id,
        };
        Some(Token { tk_type, value: text, address: self.here() })
    }

    /// Skips a `//` comment, the two slashes already eaten.
    fn skip_line_comment(&mut self)
        requires
            old(self).fits(),
            old(self).cursor.current <= old(self).source().len() + 2,
            old(self).line + 1 <= old(self).cursor.current,
        ensures
            final(self).same_input(old(self)),
            final(self).fits(),
            final(self).state() == line_comment(old(self).source(), old(self).state()),
            final(self).cursor.current <= old(self).source().len() + 2,
            final(self).cursor.current >= old(self).cursor.current,
            final(self).line <= final(self).cursor.current + 1,
    {
        let ghost src = self.source();
        let ghost goal = line_comment(src, self.state());
        loop
            invariant_except_break
                line_comment(src, self.state()) == goal,
            invariant
                self.source() == src,
                self.file() == old(self).file(),
                self.fits(),
                self.cursor.current <= src.len() + 2,
                self.cursor.current >= old(self).cursor.current,
                self.line + 1 <= self.cursor.current,
            ensures
                goal == st_newline(self.state()),
            decreases src.len() + 2 - self.cursor.current,
        {
            if self.is_match('\n') {
                break;
            }
            if self.cursor.is_at_end() {
                break;
            }
            self.advance();
        }
        self.new_line();
    }

    /// Skips a `/* */` comment, the opening `/*` already eaten.
    fn skip_block_comment(&mut self)
        requires
            old(self).fits(),
            old(self).cursor.current <= old(self).source().len(),
            old(self).line + 1 <= old(self).cursor.current,
        ensures
            final(self).same_input(old(self)),
            final(self).fits(),
            final(self).state() == block_comment(old(self).source(), old(self).state()),
            final(self).cursor.current <= old(self).source().len() + 2,
            final(self).cursor.current >= old(self).cursor.current,
            final(self).line <= final(self).cursor.current + 1,
    {
        let ghost src = self.source();
        let ghost goal = block_comment(src, self.state());
        loop
            invariant_except_break
                block_comment(src, self.state()) == goal,
            invariant
                self.source() == src,
                self.file() == old(self).file(),
                self.fits(),
                self.cursor.current <= src.len(),
                self.cursor.current >= old(self).cursor.current,
                self.line + 1 <= self.cursor.current,
            ensures
                goal == st_adv(st_adv(self.state())),
            decreases src.len() - self.cursor.current,
        {
            if (self.cursor.peek() == '*' && self.cursor.next() == '/') || self.cursor.is_at_end() {
                break;
            }
            if self.is_match('\n') {
                self.new_line();
                continue;
            }
            self.advance();
        }
        // *
        self.advance();
        // /
        self.advance();
    }

    /// Eats the character after an operator when it is `=`, and adds the
    /// compound or the single token.
    fn op_or_assign(&mut self, with_eq: TokenKind, with_eq_text: &str, alone: TokenKind, alone_text: &str)
        requires
            old(self).fits(),
            old(self).cursor.current <= old(self).source().len() + 2,
        ensures
            final(self).same_input(old(self)),
            final(self).fits(),
            final(self).state() == op_or_assign(old(self).source(), old(self).file(), old(self).state(), with_eq, with_eq_text@, alone, alone_text@),
    {
        if self.is_match('=') {
            self.add_tk(with_eq, with_eq_text);
        } else {
            self.add_tk(alone, alone_text);
        }
    }

    /// A number token whose first digit `ch` has been eaten.
    fn lex_number(&mut self, ch: char) -> (r: Result<(), LexFailure>)
        requires
            old(self).fits(),
            old(self).cursor.current <= old(self).source().len(),
        ensures
            final(self).same_input(old(self)),
            final(self).fits(),
            match r {
                Ok(()) => {
                    &&& lex_number(old(self).source(), old(self).file(), old(self).state(), ch) == Ok::<LexState, LexFault>(final(self).state())
                    &&& final(self).cursor.current <= old(self).source().len() + 1
                    &&& final(self).cursor.current >= old(self).cursor.current
                    &&& final(self).line == old(self).line
                },
                Err(f) => lex_number(old(self).source(), old(self).file(), old(self).state(), ch) == Err::<LexState, LexFault>(f@),
            },
    {
        let p = self.cursor.peek();
        let tk;
        if ch == '0' && p == 'x' {
            tk = self.scan_hexadecimal_number();
        } else if ch == '0' && p == 'o' {
            tk = self.scan_octal_number();
        } else if ch == '0' && p == 'b' {
            tk = self.scan_binary_number();
        } else {
            match self.scan_number(ch) {
                Ok(t) => {
                    tk = t;
                },
                Err(e) => {
                    return Err(LexFailure::Failed(e));
                },
            }
        }
        self.push_token(tk);
        Ok(())
    }

    /// One turn of the main loop: reads one character and what follows it.
    fn lex_step(&mut self) -> (r: Result<(), LexFailure>)
        requires
            old(self).fits(),
            old(self).cursor.current < old(self).source().len(),
            old(self).line <= old(self).cursor.current + 1,
        ensures
            final(self).same_input(old(self)),
            final(self).fits(),
            match r {
                Ok(()) => {
                    &&& lex_step(old(self).source(), old(self).file(), old(self).state()) == Ok::<LexState, LexFault>(final(self).state())
                    &&& final(self).cursor.current <= old(self).source().len() + 2
                    &&& final(self).cursor.current > old(self).cursor.current
                    &&& final(self).line <= final(self).cursor.current + 1
                },
                Err(f) => lex_step(old(self).source(), old(self).file(), old(self).state()) == Err::<LexState, LexFault>(f@),
            },
    {
        let ch = self.advance();
        match ch {
            '+' => {
                self.op_or_assign(TokenKind::AssignAdd, "+=", TokenKind::Op, "+");
            },
            '&' => {
                self.op_or_assign(TokenKind::AssignAnd, "&=", TokenKind::Op, "&");
            },
            '|' => {
                self.op_or_assign(TokenKind::AssignOr, "|=", TokenKind::Op, "|");
            },
            '^' => {
                self.op_or_assign(TokenKind::AssignXor, "^=", TokenKind::Op, "^");
            },
            '-' => {
                if self.is_match('=') {
                    self.add_tk(TokenKind::AssignSub, "-=");
                } else if self.is_match('>') {
                    self.add_tk(TokenKind::Arrow, "->");
                } else {
                    self.add_tk(TokenKind::Op, "-");
                }
            },
            '*' => {
                self.op_or_assign(TokenKind::AssignMul, "*=", TokenKind::Op, "*");
            },
            '%' => {
                self.add_tk(TokenKind::Op, "%");
            },
            '/' => {
                // compound operator
                if self.is_match('=') {
                    self.add_tk(TokenKind::AssignDiv, "/=");
                }
                // line comment
                else if self.is_match('/') {
                    self.skip_line_comment();
                }
                // multi-line comment
                else if self.is_match('*') {
                    self.skip_block_comment();
                } else {
                    self.add_tk(TokenKind::Op, "/");
                }
            },
            '(' => {
                self.add_tk(TokenKind::Lparen, "(");
            },
            ')' => {
                self.add_tk(TokenKind::Rparen, ")");
            },
            '{' => {
                self.add_tk(TokenKind::Lbrace, "{");
            },
            '}' => {
                self.add_tk(TokenKind::Rbrace, "}");
            },
            '[' => {
                self.add_tk(TokenKind::Lbracket, "[");
            },
            ']' => {
                self.add_tk(TokenKind::Rbracket, "]");
            },
            ',' => {
                self.add_tk(TokenKind::Comma, ",");
            },
            '.' => {
                if self.is_match('.') {
                    self.add_tk(TokenKind::Range, "..");
                } else {
                    self.add_tk(TokenKind::Dot, ".");
                }
            },
            '?' => {
                self.add_tk(TokenKind::Question, "?");
            },
            ':' => {
                self.op_or_assign(TokenKind::Walrus, ":=", TokenKind::Colon, ":");
            },
            '<' => {
                self.op_or_assign(TokenKind::LessEq, "<=", TokenKind::Less, "<");
            },
            '>' => {
                self.op_or_assign(TokenKind::GreaterEq, ">=", TokenKind::Greater, ">");
            },
            '!' => {
                self.op_or_assign(TokenKind::NotEq, "!=", TokenKind::Bang, "!");
            },
            '=' => {
                self.op_or_assign(TokenKind::Eq, "==", TokenKind::Assign, "=");
            },
            '\r' => {},
            '\t' => {},
            '\0' => {},
            ' ' => {},
            '\n' => {
                self.new_line();
            },
            '\'' => {
                match self.scan_string() {
                    Ok(tk) => {
                        self.push_token(tk);
                    },
                    Err(e) => {
                        return Err(LexFailure::Failed(e));
                    },
                }
            },
            _ => {
                // numbers
                if self.is_digit(ch) {
                    return self.lex_number(ch);
                }
                // identifier
                else if self.is_letter(ch) {
                    match self.scan_id_or_keyword(ch) {
                        Some(token) => {
                            self.push_token(token);
                        },
                        None => {
                            return Err(LexFailure::Endless);
                        },
                    }
                }
                // unexpected
                else {
                    let mut text = string_of("unexpected char: ");
                    push_char(&mut text, ch);
                    let mut hint = string_of("delete char: ");
                    push_char(&mut hint, ch);
                    return Err(LexFailure::Failed(Error::own(self.here(), text, hint)));
                }
            },
        }
        Ok(())
    }

    /// Converts the source into tokens; reports why it cannot where it
    /// cannot (a lexical error, or the endless identifier check).
    pub fn try_lex(self) -> (r: Result<Vec<Token>, LexFailure>)
        requires
            self.fits(),
            self.state() == initial_lex_state(),
        ensures
            match r {
                Ok(ts) => spec_lex(self.source(), self.file()) == Ok::<Seq<TokenView>, LexFault>(tokens_view(ts@)),
                Err(f) => spec_lex(self.source(), self.file()) == Err::<Seq<TokenView>, LexFault>(f@),
            },
    {
        let mut lexer = self;
        let ghost src = lexer.source();
        let ghost file = lexer.file();
        let mut failure: Option<LexFailure> = None;
        while !lexer.cursor.is_at_end()
            invariant_except_break
                failure is None,
                lex_run(src, file, lexer.state()) == spec_lex(src, file),
                lexer.cursor.current <= src.len() + 2,
                lexer.line <= lexer.cursor.current + 1,
            invariant
                lexer.source() == src,
                lexer.file() == file,
                lexer.fits(),
            ensures
                match failure {
                    Some(f) => spec_lex(src, file) == Err::<Seq<TokenView>, LexFault>(f@),
                    None => lex_run(src, file, lexer.state()) == spec_lex(src, file) && lexer.cursor.current >= src.len(),
                },
            decreases src.len() + 2 - lexer.cursor.current,
        {
            match lexer.lex_step() {
                Ok(()) => {},
                Err(f) => {
                    failure = Some(f);
                    break;
                },
            }
        }
        match failure {
            Some(f) => Err(f),
            None => Ok(lexer.tokens),
        }
    }

    /// Converts the source into tokens, or reports the first lexical error.
    pub fn lex(self) -> (r: Result<Vec<Token>, Error>)
        requires
            self.fits(),
            self.state() == initial_lex_state(),
            !(spec_lex(self.source(), self.file()) is Err && spec_lex(self.source(), self.file())->Err_0 is Endless),
        ensures
            match r {
                Ok(ts) => spec_lex(self.source(), self.file()) == Ok::<Seq<TokenView>, LexFault>(tokens_view(ts@)),
                Err(e) => spec_lex(self.source(), self.file()) == Err::<Seq<TokenView>, LexFault>(LexFault::Failed(e@)),
            },
    {
        match self.try_lex() {
            Ok(ts) => Ok(ts),
            Err(LexFailure::Failed(e)) => Err(e),
            Err(LexFailure::Endless) => {
                proof {
                    assert(false);
                }
                Err(Error::new(crate::lexer::address::Address::unknown(), "", ""))
            },
        }
    }
}

} // verus!
