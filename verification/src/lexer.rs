pub mod address;
pub mod cursor;
pub mod lexer;

use vstd::prelude::*;
use vstd::string::*;
use crate::errors::{Error, ErrorType, FirstErrorView};
use crate::lexer::address::{Address, address_shown};
use crate::text::{debug_str, debug_text};
use crate::lexer::lexer::{id_check, is_digit_char, is_letter_char};
use crate::text::{push_char, string_of};

verus! {

/// The token kinds of the first syntax, in which functions are declared
/// with `fun` and values are piped with `|>`.
#[derive(Debug, Clone, Copy, PartialEq, Eq, Hash, Structural)]
pub enum TokenType {
    Fun,
    Op,
    Lparen,
    Rparen,
    Lbrace,
    Rbrace,
    Lambda,
    Walrus,
    Eq,
    NotEq,
    Text,
    Number,
    Assign,
    Id,
    Comma,
    Ret,
    If,
    Bool,
    While,
    Type,
    New,
    Dot,
    Greater,
    Less,
    GreaterEq,
    LessEq,
    Null,
    Elif,
    Else,
    And,
    Or,
    Import,
    AssignAdd,
    AssignSub,
    AssignMul,
    AssignDiv,
    Break,
    Match,
    Case,
    Default,
    Lbracket,
    Rbracket,
    Colon,
    For,
    Bang,
    In,
    Continue,
    Arrow,
    Unit,
    To,
    From,
    Native,
    Pipe,
    With,
}

/// A token of the first syntax: its kind, its text and its place.
#[derive(Debug, PartialEq, Eq, Hash)]
pub struct Token {
    tk_type: TokenType,
    value: String,
    address: Address,
}

/// The mathematical content of a [`Token`] of the first syntax.
pub struct FirstTokenView {
    pub kind: TokenType,
    pub text: Seq<char>,
    pub place: Address,
}

impl Clone for Token {
    fn clone(&self) -> (r: Self)
        ensures
            r == *self,
    {
        Token { tk_type: self.tk_type, value: self.value.clone(), address: self.address.clone() }
    }
}

impl View for Token {
    type V = FirstTokenView;

    closed spec fn view(&self) -> FirstTokenView {
        FirstTokenView { kind: self.tk_type, text: self.value@, place: self.address }
    }
}

impl Token {
    /// The kind.
    pub closed spec fn kind(&self) -> TokenType {
        self.tk_type
    }

    /// The text.
    pub closed spec fn text(&self) -> Seq<char> {
        self.value@
    }

    /// The place.
    pub closed spec fn place(&self) -> Address {
        self.address
    }

    /// A new token.
    pub fn new(tk_type: TokenType, value: String, address: Address) -> (r: Token)
        ensures
            r.kind() == tk_type,
            r.text() == value@,
            r.place() == address,
            r@ == (FirstTokenView { kind: tk_type, text: value@, place: address }),
    {
        Token { tk_type, value, address }
    }
}

/// The name `{:?}` writes for a token kind of the first syntax.
pub open spec fn token_type_name(k: TokenType) -> Seq<char> {
    match k {
        TokenType::Fun => "Fun"@,
        TokenType::Op => "Op"@,
        TokenType::Lparen => "Lparen"@,
        TokenType::Rparen => "Rparen"@,
        TokenType::Lbrace => "Lbrace"@,
        TokenType::Rbrace => "Rbrace"@,
        TokenType::Lambda => "Lambda"@,
        TokenType::Walrus => "Walrus"@,
        TokenType::Eq => "Eq"@,
        TokenType::NotEq => "NotEq"@,
        TokenType::Text => "Text"@,
        TokenType::Number => "Number"@,
        TokenType::Assign => "Assign"@,
        TokenType::Id => "Id"@,
        TokenType::Comma => "Comma"@,
        TokenType::Ret => "Ret"@,
        TokenType::If => "If"@,
        TokenType::Bool => "Bool"@,
        TokenType::While => "While"@,
        TokenType::Type => "Type"@,
        TokenType::New => "New"@,
        TokenType::Dot => "Dot"@,
        TokenType::Greater => "Greater"@,
        TokenType::Less => "Less"@,
        TokenType::GreaterEq => "GreaterEq"@,
        TokenType::LessEq => "LessEq"@,
        TokenType::Null => "Null"@,
        TokenType::Elif => "Elif"@,
        TokenType::Else => "Else"@,
        TokenType::And => "And"@,
        TokenType::Or => "Or"@,
        TokenType::Import => "Import"@,
        TokenType::AssignAdd => "AssignAdd"@,
        TokenType::AssignSub => "AssignSub"@,
        TokenType::AssignMul => "AssignMul"@,
        TokenType::AssignDiv => "AssignDiv"@,
        TokenType::Break => "Break"@,
        TokenType::Match => "Match"@,
        TokenType::Case => "Case"@,
        TokenType::Default => "Default"@,
        TokenType::Lbracket => "Lbracket"@,
        TokenType::Rbracket => "Rbracket"@,
        TokenType::Colon => "Colon"@,
        TokenType::For => "For"@,
        TokenType::Bang => "Bang"@,
        TokenType::In => "In"@,
        TokenType::Continue => "Continue"@,
        TokenType::Arrow => "Arrow"@,
        TokenType::Unit => "Unit"@,
        TokenType::To => "To"@,
        TokenType::From => "From"@,
        TokenType::Native => "Native"@,
        TokenType::Pipe => "Pipe"@,
        TokenType::With => "With"@,
    }
}

/// The name `{:?}` writes for a token kind of the first syntax.
pub fn token_type_text(k: TokenType) -> (r: &'static str)
    ensures
        r@ == token_type_name(k),
{
    match k {
        TokenType::Fun => "Fun",
        TokenType::Op => "Op",
        TokenType::Lparen => "Lparen",
        TokenType::Rparen => "Rparen",
        TokenType::Lbrace => "Lbrace",
        TokenType::Rbrace => "Rbrace",
        TokenType::Lambda => "Lambda",
        TokenType::Walrus => "Walrus",
        TokenType::Eq => "Eq",
        TokenType::NotEq => "NotEq",
        TokenType::Text => "Text",
        TokenType::Number => "Number",
        TokenType::Assign => "Assign",
        TokenType::Id => "Id",
        TokenType::Comma => "Comma",
        TokenType::Ret => "Ret",
        TokenType::If => "If",
        TokenType::Bool => "Bool",
        TokenType::While => "While",
        TokenType::Type => "Type",
        TokenType::New => "New",
        TokenType::Dot => "Dot",
        TokenType::Greater => "Greater",
        TokenType::Less => "Less",
        TokenType::GreaterEq => "GreaterEq",
        TokenType::LessEq => "LessEq",
        TokenType::Null => "Null",
        TokenType::Elif => "Elif",
        TokenType::Else => "Else",
        TokenType::And => "And",
        TokenType::Or => "Or",
        TokenType::Import => "Import",
        TokenType::AssignAdd => "AssignAdd",
        TokenType::AssignSub => "AssignSub",
        TokenType::AssignMul => "AssignMul",
        TokenType::AssignDiv => "AssignDiv",
        TokenType::Break => "Break",
        TokenType::Match => "Match",
        TokenType::Case => "Case",
        TokenType::Default => "Default",
        TokenType::Lbracket => "Lbracket",
        TokenType::Rbracket => "Rbracket",
        TokenType::Colon => "Colon",
        TokenType::For => "For",
        TokenType::Bang => "Bang",
        TokenType::In => "In",
        TokenType::Continue => "Continue",
        TokenType::Arrow => "Arrow",
        TokenType::Unit => "Unit",
        TokenType::To => "To",
        TokenType::From => "From",
        TokenType::Native => "Native",
        TokenType::Pipe => "Pipe",
        TokenType::With => "With",
    }
}

impl Token {
    /// The text `{:?}` writes for the token.
    pub closed spec fn shown(&self) -> Seq<char> {
        "Token { tk_type: "@ + token_type_name(self.tk_type) + ", value: "@ + debug_str(self.value@) + ", address: "@
            + address_shown(self.address) + " }"@
    }

    /// The text `{:?}` writes for the token.
    pub fn shown_text(&self) -> (r: String)
        ensures
            r@ =~= self.shown(),
    {
        let mut s = string_of("Token { tk_type: ");
        s.append(token_type_text(self.tk_type));
        s.append(", value: ");
        s.append(debug_text(self.value.as_str()).as_str());
        s.append(", address: ");
        s.append(self.address.shown_text().as_str());
        s.append(" }");
        s
    }
}

/// The views of a sequence of tokens of the first syntax.
pub open spec fn first_tokens_view(ts: Seq<Token>) -> Seq<FirstTokenView> {
    ts.map_values(|t: Token| t@)
}

// ---------------------------------------------------------------------------
// The lexical grammar of the first syntax, as a state machine. The text is
// read by character index, while the end is found by the byte length.
// ---------------------------------------------------------------------------

/// Where the lexer of the first syntax stands.
pub struct FirstLexState {
    pub current: int,
    pub line: int,
    pub tokens: Seq<FirstTokenView>,
}

/// Why the lexer of the first syntax gave no token list.
pub enum FirstLexFault {
    /// A lexical error was reported.
    Failed(FirstErrorView),
    /// The identifier check never finishes: `::` after an identifier
    /// character.
    Endless,
}

pub open spec fn first_initial_state() -> FirstLexState {
    FirstLexState { current: 0, line: 1, tokens: Seq::empty() }
}

/// The `i`-th character, or `\0` past the text.
pub open spec fn fl_char(code: Seq<char>, i: int) -> char {
    if 0 <= i < code.len() {
        code[i]
    } else {
        '\0'
    }
}

pub open spec fn fl_at_end(blen: int, st: FirstLexState) -> bool {
    st.current >= blen
}

pub open spec fn fl_peek(code: Seq<char>, st: FirstLexState) -> char {
    fl_char(code, st.current)
}

pub open spec fn fl_next(code: Seq<char>, blen: int, st: FirstLexState) -> char {
    if st.current + 1 >= blen {
        '\0'
    } else {
        fl_char(code, st.current + 1)
    }
}

/// `is_match`: not at the end, and the current character is `ch` (which the
/// lexer then reads).
pub open spec fn fl_match(code: Seq<char>, blen: int, st: FirstLexState, ch: char) -> bool {
    !fl_at_end(blen, st) && fl_char(code, st.current) == ch
}

pub open spec fn fl_adv(st: FirstLexState) -> FirstLexState {
    FirstLexState { current: st.current + 1, ..st }
}

pub open spec fn fl_newline(st: FirstLexState) -> FirstLexState {
    FirstLexState { line: st.line + 1, ..st }
}

pub open spec fn fl_addr(file: String, st: FirstLexState) -> Address {
    Address { line: st.line as u64, column: 0, file: Some(file) }
}

pub open spec fn fl_push(file: String, st: FirstLexState, kind: TokenType, text: Seq<char>) -> FirstLexState {
    FirstLexState { tokens: st.tokens.push(FirstTokenView { kind, text, place: fl_addr(file, st) }), ..st }
}

pub open spec fn fl_error(file: String, st: FirstLexState, text: Seq<char>, hint: Seq<char>) -> FirstErrorView {
    FirstErrorView { kind: ErrorType::Parsing, addr: fl_addr(file, st), text, hint }
}

/// The body of a string literal, the opening quote already read.
pub open spec fn fl_string(code: Seq<char>, blen: int, file: String, st: FirstLexState, text: Seq<char>) -> Result<(FirstLexState, Seq<char>), FirstErrorView>
    decreases blen - st.current,
{
    if fl_peek(code, st) == '\'' {
        Ok((st, text))
    } else {
        let s1 = fl_adv(st);
        let t1 = text.push(fl_peek(code, st));
        if fl_at_end(blen, s1) || fl_match(code, blen, s1, '\n') {
            Err(fl_error(file, s1, "unclosed string."@, "did you forget ' symbol?"@))
        } else {
            fl_string(code, blen, file, s1, t1)
        }
    }
}

/// The rest of a number, `is_float` telling whether a dot was met.
pub open spec fn fl_number(code: Seq<char>, blen: int, file: String, st: FirstLexState, text: Seq<char>, is_float: bool) -> Result<(FirstLexState, Seq<char>), FirstErrorView>
    decreases code.len() - st.current,
{
    let c = fl_peek(code, st);
    if !(is_digit_char(c) || c == '.') || !(0 <= st.current < code.len()) {
        Ok((st, text))
    } else if fl_match(code, blen, st, '.') {
        if is_float {
            Err(fl_error(file, st, "couldn't parse number with two dots"@, "check your code."@))
        } else {
            fl_number(code, blen, file, fl_adv(st), text.push('.'), true)
        }
    } else {
        fl_number(code, blen, file, fl_adv(st), text.push(c), is_float)
    }
}

/// The rest of an identifier or keyword; `None` where the lexer never stops.
pub open spec fn fl_ident(code: Seq<char>, blen: int, st: FirstLexState, text: Seq<char>) -> Option<(FirstLexState, Seq<char>)>
    decreases code.len() - st.current,
{
    match id_check(fl_peek(code, st), fl_next(code, blen, st)) {
        None => None,
        Some(false) => Some((st, text)),
        Some(true) => if 0 <= st.current < code.len() {
            fl_ident(code, blen, fl_adv(st), text.push(fl_peek(code, st)))
        } else {
            Some((st, text))
        },
    }
}

/// A `//` comment, up to and including a newline, or to the end of the text.
pub open spec fn fl_line_comment(code: Seq<char>, blen: int, st: FirstLexState) -> FirstLexState
    decreases blen - st.current,
{
    if fl_match(code, blen, st, '\n') {
        fl_newline(fl_adv(st))
    } else if fl_at_end(blen, st) {
        fl_newline(st)
    } else {
        fl_line_comment(code, blen, fl_adv(st))
    }
}

/// A `/* */` comment, up to and including `*/` (two more characters are
/// stepped over at the end of the text).
pub open spec fn fl_block_comment(code: Seq<char>, blen: int, st: FirstLexState) -> FirstLexState
    decreases blen - st.current,
{
    if (fl_peek(code, st) == '*' && fl_next(code, blen, st) == '/') || fl_at_end(blen, st) {
        fl_adv(fl_adv(st))
    } else if fl_match(code, blen, st, '\n') {
        fl_block_comment(code, blen, fl_newline(fl_adv(st)))
    } else {
        fl_block_comment(code, blen, fl_adv(st))
    }
}

/// The kind of a reserved word of the first syntax.
pub open spec fn first_keyword(text: Seq<char>) -> Option<TokenType> {
    if text == "fun"@ {
        Some(TokenType::Fun)
    } else if text == "break"@ {
        Some(TokenType::Break)
    } else if text == "if"@ {
        Some(TokenType::If)
    } else if text == "elif"@ {
        Some(TokenType::Elif)
    } else if text == "else"@ {
        Some(TokenType::Else)
    } else if text == "and"@ {
        Some(TokenType::And)
    } else if text == "or"@ {
        Some(TokenType::Or)
    } else if text == "import"@ {
        Some(TokenType::Import)
    } else if text == "type"@ {
        Some(TokenType::Type)
    } else if text == "new"@ {
        Some(TokenType::New)
    } else if text == "match"@ {
        Some(TokenType::Match)
    } else if text == "case"@ {
        Some(TokenType::Case)
    } else if text == "default"@ {
        Some(TokenType::Default)
    } else if text == "lambda"@ {
        Some(TokenType::Lambda)
    } else if text == "while"@ {
        Some(TokenType::While)
    } else if text == "unit"@ {
        Some(TokenType::Unit)
    } else if text == "for"@ {
        Some(TokenType::For)
    } else if text == "in"@ {
        Some(TokenType::In)
    } else if text == "continue"@ {
        Some(TokenType::Continue)
    } else if text == "from"@ {
        Some(TokenType::From)
    } else if text == "to"@ {
        Some(TokenType::To)
    } else if text == "return"@ {
        Some(TokenType::Ret)
    } else if text == "null"@ {
        Some(TokenType::Null)
    } else if text == "native"@ {
        Some(TokenType::Native)
    } else if text == "with"@ {
        Some(TokenType::With)
    } else {
        None
    }
}

pub open spec fn first_word_kind(text: Seq<char>) -> TokenType {
    match first_keyword(text) {
        Some(k) => k,
        None => TokenType::Id,
    }
}

/// An operator that becomes another token when `=` is matched after it.
pub open spec fn fl_op2(code: Seq<char>, blen: int, file: String, s: FirstLexState, with_eq: TokenType, with_eq_text: Seq<char>, alone: TokenType, alone_text: Seq<char>) -> FirstLexState {
    if fl_match(code, blen, s, '=') {
        fl_push(file, fl_adv(s), with_eq, with_eq_text)
    } else {
        fl_push(file, s, alone, alone_text)
    }
}

/// One turn of the lexer's loop.
pub open spec fn fl_step(code: Seq<char>, blen: int, file: String, st: FirstLexState) -> Result<FirstLexState, FirstLexFault> {
    let ch = fl_peek(code, st);
    let s = fl_adv(st);
    match ch {
        '?' => Ok(fl_push(file, s, TokenType::Bang, "?"@)),
        '+' => Ok(fl_op2(code, blen, file, s, TokenType::AssignAdd, "+="@, TokenType::Op, "+"@)),
        '-' => Ok(
            if fl_match(code, blen, s, '=') {
                fl_push(file, fl_adv(s), TokenType::AssignSub, "-="@)
            } else if fl_match(code, blen, s, '>') {
                fl_push(file, fl_adv(s), TokenType::Arrow, "->"@)
            } else {
                fl_push(file, s, TokenType::Op, "-"@)
            },
        ),
        '*' => Ok(fl_op2(code, blen, file, s, TokenType::AssignMul, "*="@, TokenType::Op, "*"@)),
        '/' => if fl_match(code, blen, s, '=') {
            Ok(fl_push(file, fl_adv(s), TokenType::AssignDiv, "/="@))
        } else if fl_match(code, blen, s, '/') {
            Ok(fl_line_comment(code, blen, fl_adv(s)))
        } else if fl_match(code, blen, s, '*') {
            Ok(fl_block_comment(code, blen, fl_adv(s)))
        } else {
            Ok(fl_push(file, s, TokenType::Op, "/"@))
        },
        '(' => Ok(fl_push(file, s, TokenType::Lparen, "("@)),
        ')' => Ok(fl_push(file, s, TokenType::Rparen, ")"@)),
        '{' => Ok(fl_push(file, s, TokenType::Lbrace, "{"@)),
        '}' => Ok(fl_push(file, s, TokenType::Rbrace, "}"@)),
        '[' => Ok(fl_push(file, s, TokenType::Lbracket, "["@)),
        ']' => Ok(fl_push(file, s, TokenType::Rbracket, "]"@)),
        ',' => Ok(fl_push(file, s, TokenType::Comma, ","@)),
        '.' => Ok(fl_push(file, s, TokenType::Dot, "."@)),
        ':' => Ok(fl_op2(code, blen, file, s, TokenType::Walrus, ":="@, TokenType::Colon, ":"@)),
        '<' => Ok(fl_op2(code, blen, file, s, TokenType::LessEq, "<="@, TokenType::Less, "<"@)),
        '>' => Ok(fl_op2(code, blen, file, s, TokenType::GreaterEq, ">="@, TokenType::Greater, ">"@)),
        '!' => Ok(fl_op2(code, blen, file, s, TokenType::NotEq, "!="@, TokenType::Bang, "!"@)),
        '=' => Ok(fl_op2(code, blen, file, s, TokenType::Eq, "=="@, TokenType::Assign, "="@)),
        '\r' => Ok(s),
        '\t' => Ok(s),
        ' ' => Ok(s),
        '\n' => Ok(fl_newline(s)),
        '\'' => match fl_string(code, blen, file, s, Seq::empty()) {
            Err(e) => Err(FirstLexFault::Failed(e)),
            Ok((s2, t)) => Ok(fl_push(file, fl_adv(s2), TokenType::Text, t)),
        },
        '|' => if fl_match(code, blen, s, '>') {
            Ok(fl_push(file, fl_adv(s), TokenType::Pipe, "|>"@))
        } else {
            Err(FirstLexFault::Failed(fl_error(file, s, "expected > after | for pipe."@, "check your code."@)))
        },
        _ => if is_digit_char(ch) {
            match fl_number(code, blen, file, s, seq![ch], false) {
                Err(e) => Err(FirstLexFault::Failed(e)),
                Ok((s2, t)) => Ok(fl_push(file, s2, TokenType::Number, t)),
            }
        } else if is_letter_char(ch) {
            match fl_ident(code, blen, s, seq![ch]) {
                None => Err(FirstLexFault::Endless),
                Some((s2, t)) => Ok(fl_push(file, s2, first_word_kind(t), t)),
            }
        } else {
            Err(FirstLexFault::Failed(fl_error(file, s, "unexpected char: "@.push(ch), "delete char: "@.push(ch))))
        },
    }
}

/// The lexer's loop from `st` until the position reaches the byte length.
pub open spec fn fl_run(code: Seq<char>, blen: int, file: String, st: FirstLexState) -> Result<Seq<FirstTokenView>, FirstLexFault>
    decreases code.len() + blen + 3 - st.current,
{
    if fl_at_end(blen, st) {
        Ok(st.tokens)
    } else {
        match fl_step(code, blen, file, st) {
            Err(f) => Err(f),
            Ok(s2) => if st.current < s2.current <= code.len() + blen + 3 {
                fl_run(code, blen, file, s2)
            } else {
                Ok(s2.tokens)
            },
        }
    }
}

/// The tokens of `code` (whose UTF-8 form is `blen` bytes long) in the first
/// syntax, read as a file named `file`.
pub open spec fn first_lex(code: Seq<char>, blen: int, file: String) -> Result<Seq<FirstTokenView>, FirstLexFault> {
    fl_run(code, blen, file, first_initial_state())
}

/// No token of kind `Id` in `ts` spells a reserved word of the first syntax.
pub open spec fn first_ids_not_keywords(ts: Seq<FirstTokenView>) -> bool {
    forall|i: int| 0 <= i < ts.len() && #[trigger] ts[i].kind == TokenType::Id ==> first_keyword(ts[i].text) is None
}

proof fn lemma_fl_string_tokens(code: Seq<char>, blen: int, file: String, st: FirstLexState, text: Seq<char>)
    ensures
        fl_string(code, blen, file, st, text) is Ok ==> fl_string(code, blen, file, st, text)->Ok_0.0.tokens == st.tokens,
    decreases blen - st.current,
{
    if fl_peek(code, st) != '\'' {
        let s1 = fl_adv(st);
        let t1 = text.push(fl_peek(code, st));
        if !(fl_at_end(blen, s1) || fl_match(code, blen, s1, '\n')) {
            lemma_fl_string_tokens(code, blen, file, s1, t1);
        }
    }
}

proof fn lemma_fl_number_tokens(code: Seq<char>, blen: int, file: String, st: FirstLexState, text: Seq<char>, is_float: bool)
    ensures
        fl_number(code, blen, file, st, text, is_float) is Ok ==> fl_number(code, blen, file, st, text, is_float)->Ok_0.0.tokens == st.tokens,
    decreases code.len() - st.current,
{
    let c = fl_peek(code, st);
    if (is_digit_char(c) || c == '.') && 0 <= st.current < code.len() {
        if fl_match(code, blen, st, '.') {
            if !is_float {
                lemma_fl_number_tokens(code, blen, file, fl_adv(st), text.push('.'), true);
            }
        } else {
            lemma_fl_number_tokens(code, blen, file, fl_adv(st), text.push(c), is_float);
        }
    }
}

proof fn lemma_fl_ident_tokens(code: Seq<char>, blen: int, st: FirstLexState, text: Seq<char>)
    ensures
        fl_ident(code, blen, st, text) is Some ==> fl_ident(code, blen, st, text)->Some_0.0.tokens == st.tokens,
    decreases code.len() - st.current,
{
    if id_check(fl_peek(code, st), fl_next(code, blen, st)) == Some(true) && 0 <= st.current < code.len() {
        lemma_fl_ident_tokens(code, blen, fl_adv(st), text.push(fl_peek(code, st)));
    }
}

proof fn lemma_fl_comments_tokens(code: Seq<char>, blen: int, st: FirstLexState)
    ensures
        fl_line_comment(code, blen, st).tokens == st.tokens,
        fl_block_comment(code, blen, st).tokens == st.tokens,
    decreases blen - st.current,
{
    if !fl_at_end(blen, st) {
        lemma_fl_comments_tokens(code, blen, fl_adv(st));
        lemma_fl_comments_tokens(code, blen, fl_newline(fl_adv(st)));
    }
}

proof fn lemma_fl_step_ids(code: Seq<char>, blen: int, file: String, st: FirstLexState)
    requires
        first_ids_not_keywords(st.tokens),
    ensures
        fl_step(code, blen, file, st) is Ok ==> first_ids_not_keywords(fl_step(code, blen, file, st)->Ok_0.tokens),
{
    let ch = fl_peek(code, st);
    let s = fl_adv(st);
    lemma_fl_comments_tokens(code, blen, fl_adv(s));
    lemma_fl_string_tokens(code, blen, file, s, Seq::empty());
    lemma_fl_number_tokens(code, blen, file, s, seq![ch], false);
    lemma_fl_ident_tokens(code, blen, s, seq![ch]);
    assert forall|tv: FirstTokenView| tv.kind != TokenType::Id || first_keyword(tv.text) is None implies #[trigger] first_ids_not_keywords(st.tokens.push(tv)) by {
        assert forall|i: int| 0 <= i < st.tokens.push(tv).len() && #[trigger] st.tokens.push(tv)[i].kind == TokenType::Id implies first_keyword(st.tokens.push(tv)[i].text) is None by {
            if i < st.tokens.len() {
                assert(st.tokens.push(tv)[i] == st.tokens[i]);
            }
        }
    }
}

proof fn lemma_fl_run_ids(code: Seq<char>, blen: int, file: String, st: FirstLexState)
    requires
        first_ids_not_keywords(st.tokens),
    ensures
        fl_run(code, blen, file, st) is Ok ==> first_ids_not_keywords(fl_run(code, blen, file, st)->Ok_0),
    decreases code.len() + blen + 3 - st.current,
{
    if !fl_at_end(blen, st) {
        lemma_fl_step_ids(code, blen, file, st);
        match fl_step(code, blen, file, st) {
            Ok(s2) => {
                if st.current < s2.current <= code.len() + blen + 3 {
                    lemma_fl_run_ids(code, blen, file, s2);
                }
            },
            Err(_) => {},
        }
    }
}

/// In the first syntax too, a word that spells a reserved word lexes to
/// that keyword's kind: no identifier token spells a reserved word.
pub proof fn law_first_identifiers_are_not_keywords(code: Seq<char>, blen: int, file: String)
    ensures
        first_lex(code, blen, file) is Ok ==> first_ids_not_keywords(first_lex(code, blen, file)->Ok_0),
{
    lemma_fl_run_ids(code, blen, file, first_initial_state());
}

// ---------------------------------------------------------------------------
// The lexer of the first syntax.
// ---------------------------------------------------------------------------

/// Why [`Lexer::try_lex`] gave no token list.
pub enum FirstLexFailure {
    /// A lexical error.
    Failed(Error),
    /// A check that never finishes (see [`FirstLexFault::Endless`]).
    Endless,
}

impl View for FirstLexFailure {
    type V = FirstLexFault;

    open spec fn view(&self) -> FirstLexFault {
        match self {
            FirstLexFailure::Failed(e) => FirstLexFault::Failed(e@),
            FirstLexFailure::Endless => FirstLexFault::Endless,
        }
    }
}

/// The lexer of the first syntax: the source as characters and its byte
/// length, the file name, the position, the line and the tokens so far.
/// Its reserved words are those of [`first_keyword`].
pub struct Lexer {
    line: u64,
    current: usize,
    code: Vec<char>,
    byte_len: usize,
    filename: String,
    tokens: Vec<Token>,
}

impl Lexer {
    /// The characters of the source.
    pub closed spec fn source(&self) -> Seq<char> {
        self.code@
    }

    /// The length of the source in UTF-8 bytes.
    pub closed spec fn blen(&self) -> int {
        self.byte_len as int
    }

    /// The file name tokens carry.
    pub closed spec fn file(&self) -> String {
        self.filename
    }

    /// Where the lexer stands.
    pub closed spec fn state(&self) -> FirstLexState {
        FirstLexState { current: self.current as int, line: self.line as int, tokens: first_tokens_view(self.tokens@) }
    }

    /// Every position the lexer reaches fits in `usize`, and lines never
    /// outnumber the characters read.
    pub closed spec fn fits(&self) -> bool {
        &&& self.code@.len() + self.byte_len + 8 <= usize::MAX
        &&& self.current <= self.code@.len() + self.byte_len + 3
        &&& self.line <= self.current + 1
    }

    closed spec fn same_input(&self, other: &Self) -> bool {
        &&& self.code@ == other.code@
        &&& self.byte_len == other.byte_len
        &&& self.filename == other.filename
    }

    proof fn lemma_push_view(ts: Seq<Token>, t: Token)
        ensures
            first_tokens_view(ts.push(t)) == first_tokens_view(ts).push(t@),
    {
        assert(first_tokens_view(ts.push(t)) =~= first_tokens_view(ts).push(t@));
    }

    /// A lexer at the start of `code`; tokens carry `filename`.
    pub fn new(code: String, filename: String) -> (r: Lexer)
        requires
            code@.len() + vstd::utf8::encode_utf8(code@).len() + 8 <= usize::MAX,
        ensures
            r.source() == code@,
            r.blen() == vstd::utf8::encode_utf8(code@).len(),
            r.file() == filename,
            r.state() == first_initial_state(),
            r.fits(),
    {
        let text = code.as_str();
        let byte_len = text.len();
        let n = text.unicode_len();
        let mut chars: Vec<char> = Vec::new();
        let mut i: usize = 0;
        while i < n
            invariant
                n == text@.len(),
                i <= n,
                chars@ == text@.subrange(0, i as int),
            decreases n - i,
        {
            chars.push(text.get_char(i));
            i = i + 1;
            assert(chars@ =~= text@.subrange(0, i as int));
        }
        assert(chars@ =~= text@);
        let r = Lexer { line: 1, current: 0, code: chars, byte_len, filename, tokens: Vec::new() };
        assert(first_tokens_view(r.tokens@) =~= Seq::<FirstTokenView>::empty());
        r
    }

    /// The character at index `i`, or `\0` past the text.
    fn char_at(&self, i: usize) -> (r: char)
        ensures
            r == fl_char(self.source(), i as int),
    {
        if i < self.code.len() {
            self.code[i]
        } else {
            '\0'
        }
    }

    /// Whether the position has reached the byte length.
    fn is_at_end(&self) -> (r: bool)
        ensures
            r == fl_at_end(self.blen(), self.state()),
    {
        self.current >= self.byte_len
    }

    /// The current character.
    fn peek(&self) -> (r: char)
        ensures
            r == fl_peek(self.source(), self.state()),
    {
        self.char_at(self.current)
    }

    /// The character after the current one, or `\0` at the last byte.
    fn next(&self) -> (r: char)
        requires
            self.fits(),
        ensures
            r == fl_next(self.source(), self.blen(), self.state()),
    {
        if self.current + 1 >= self.byte_len {
            '\0'
        } else {
            self.char_at(self.current + 1)
        }
    }

    /// Reads the current character when it is `ch`.
    fn is_match(&mut self, ch: char) -> (r: bool)
        requires
            old(self).fits(),
        ensures
            final(self).same_input(old(self)),
            final(self).fits(),
            r == fl_match(old(self).source(), old(self).blen(), old(self).state(), ch),
            final(self).state() == if r { fl_adv(old(self).state()) } else { old(self).state() },
    {
        if self.current < self.byte_len && self.char_at(self.current) == ch {
            self.advance();
            true
        } else {
            false
        }
    }

    /// Reads the current character.
    fn advance(&mut self) -> (ch: char)
        requires
            old(self).fits(),
            old(self).current + 1 <= old(self).code@.len() + old(self).byte_len + 3,
        ensures
            final(self).same_input(old(self)),
            final(self).fits(),
            final(self).state() == fl_adv(old(self).state()),
            ch == fl_peek(old(self).source(), old(self).state()),
    {
        let ch = self.peek();
        self.current = self.current + 1;
        ch
    }

    /// Counts one more line.
    fn new_line(&mut self)
        requires
            old(self).fits(),
            old(self).line <= old(self).current,
        ensures
            final(self).same_input(old(self)),
            final(self).fits(),
            final(self).state() == fl_newline(old(self).state()),
    {
        self.line = self.line + 1;
    }

    /// The address of the current line.
    fn here(&self) -> (r: Address)
        ensures
            r == fl_addr(self.file(), self.state()),
    {
        Address::new(self.line, 0, self.filename.clone())
    }

    /// Appends a token with the current line.
    fn add_tk(&mut self, tk_type: TokenType, tk_value: &str)
        requires
            old(self).fits(),
        ensures
            final(self).same_input(old(self)),
            final(self).fits(),
            final(self).state() == fl_push(old(self).file(), old(self).state(), tk_type, tk_value@),
    {
        let tk = Token::new(tk_type, string_of(tk_value), self.here());
        proof {
            Self::lemma_push_view(self.tokens@, tk);
        }
        self.tokens.push(tk);
    }

    /// An error of the parsing stage at the current line.
    fn error_here(&self, text: String, hint: String) -> (r: Error)
        ensures
            r@ == fl_error(self.file(), self.state(), text@, hint@),
    {
        Error::new(ErrorType::Parsing, self.here(), text, hint)
    }

    /// An operator that becomes another token when `=` is matched after it.
    fn op2(&mut self, with_eq: TokenType, with_eq_text: &str, alone: TokenType, alone_text: &str)
        requires
            old(self).fits(),
        ensures
            final(self).same_input(old(self)),
            final(self).fits(),
            final(self).state() == fl_op2(old(self).source(), old(self).blen(), old(self).file(), old(self).state(), with_eq, with_eq_text@, alone, alone_text@),
    {
        if self.is_match('=') {
            self.add_tk(with_eq, with_eq_text);
        } else {
            self.add_tk(alone, alone_text);
        }
    }

    /// `is_id` of `ch`: a letter or digit, or a colon followed by one.
    /// `None` where the check calls itself without end.
    fn is_id(&self, ch: char) -> (r: Option<bool>)
        requires
            self.fits(),
        ensures
            r == id_check(ch, fl_next(self.source(), self.blen(), self.state())),
    {
        if (ch >= 'a' && ch <= 'z') || (ch >= 'A' && ch <= 'Z') || ch == '_' || (ch >= '0' && ch <= '9') {
            Some(true)
        } else if ch == ':' {
            let n = self.next();
            if (n >= 'a' && n <= 'z') || (n >= 'A' && n <= 'Z') || n == '_' || (n >= '0' && n <= '9') {
                Some(true)
            } else if n == ':' {
                None
            } else {
                Some(false)
            }
        } else {
            Some(false)
        }
    }

    /// A string literal, the opening quote read: appends it as a token.
    fn string_token(&mut self) -> (r: Result<(), Error>)
        requires
            old(self).fits(),
            old(self).current <= old(self).byte_len,
        ensures
            final(self).same_input(old(self)),
            final(self).fits(),
            match r {
                Ok(()) => fl_string(old(self).source(), old(self).blen(), old(self).file(), old(self).state(), Seq::empty()) is Ok
                    && final(self).state() == fl_push(
                        old(self).file(),
                        fl_adv(fl_string(old(self).source(), old(self).blen(), old(self).file(), old(self).state(), Seq::empty())->Ok_0.0),
                        TokenType::Text,
                        fl_string(old(self).source(), old(self).blen(), old(self).file(), old(self).state(), Seq::empty())->Ok_0.1,
                    )
                    && final(self).current <= old(self).byte_len + 1
                    && final(self).current > old(self).current,
                Err(e) => fl_string(old(self).source(), old(self).blen(), old(self).file(), old(self).state(), Seq::empty()) == Err::<(FirstLexState, Seq<char>), FirstErrorView>(e@),
            },
    {
        let ghost src = self.source();
        let ghost blen = self.blen();
        let ghost file = self.file();
        let ghost st0 = self.state();
        let mut text = String::new();
        let mut failed: Option<Error> = None;
        proof {
            assert(text@ =~= Seq::<char>::empty());
        }
        loop
            invariant_except_break
                fl_string(src, blen, file, st0, Seq::empty()) == fl_string(src, blen, file, self.state(), text@),
                failed is None,
                self.current <= self.byte_len,
            invariant
                self.same_input(old(self)),
                src == self.source(),
                blen == self.blen(),
                file == self.file(),
                self.fits(),
                self.current >= st0.current,
                self.state().line == st0.line,
                self.state().tokens == st0.tokens,
            ensures
                match failed {
                    Some(e) => fl_string(src, blen, file, st0, Seq::empty()) == Err::<(FirstLexState, Seq<char>), FirstErrorView>(e@),
                    None => fl_string(src, blen, file, st0, Seq::empty()) == Ok::<(FirstLexState, Seq<char>), FirstErrorView>((self.state(), text@))
                        && self.current <= self.byte_len,
                },
            decreases blen - self.current,
        {
            if self.peek() == '\'' {
                break;
            }
            let ch = self.advance();
            push_char(&mut text, ch);
            if self.is_at_end() || self.is_match('\n') {
                failed = Some(self.error_here(string_of("unclosed string."), string_of("did you forget ' symbol?")));
                break;
            }
        }
        match failed {
            Some(e) => Err(e),
            None => {
                self.advance();
                let tk = Token::new(TokenType::Text, text, self.here());
                proof {
                    Self::lemma_push_view(self.tokens@, tk);
                }
                self.tokens.push(tk);
                Ok(())
            },
        }
    }

    /// A number starting with `start` (read): appends it as a token.
    fn number_token(&mut self, start: char) -> (r: Result<(), Error>)
        requires
            old(self).fits(),
        ensures
            final(self).same_input(old(self)),
            final(self).fits(),
            match r {
                Ok(()) => fl_number(old(self).source(), old(self).blen(), old(self).file(), old(self).state(), seq![start], false) is Ok
                    && final(self).state() == fl_push(
                        old(self).file(),
                        fl_number(old(self).source(), old(self).blen(), old(self).file(), old(self).state(), seq![start], false)->Ok_0.0,
                        TokenType::Number,
                        fl_number(old(self).source(), old(self).blen(), old(self).file(), old(self).state(), seq![start], false)->Ok_0.1,
                    )
                    && final(self).current >= old(self).current,
                Err(e) => fl_number(old(self).source(), old(self).blen(), old(self).file(), old(self).state(), seq![start], false) == Err::<(FirstLexState, Seq<char>), FirstErrorView>(e@),
            },
    {
        let ghost src = self.source();
        let ghost blen = self.blen();
        let ghost file = self.file();
        let ghost st0 = self.state();
        let mut text = String::new();
        push_char(&mut text, start);
        let mut is_float = false;
        let mut failed: Option<Error> = None;
        proof {
            assert(text@ =~= seq![start]);
        }
        let n = self.code.len();
        loop
            invariant_except_break
                fl_number(src, blen, file, st0, seq![start], false) == fl_number(src, blen, file, self.state(), text@, is_float),
                failed is None,
            invariant
                self.same_input(old(self)),
                src == self.source(),
                blen == self.blen(),
                file == self.file(),
                self.fits(),
                self.current >= st0.current,
                self.state().line == st0.line,
                self.state().tokens == st0.tokens,
                n == src.len(),
            ensures
                match failed {
                    Some(e) => fl_number(src, blen, file, st0, seq![start], false) == Err::<(FirstLexState, Seq<char>), FirstErrorView>(e@),
                    None => fl_number(src, blen, file, st0, seq![start], false) == Ok::<(FirstLexState, Seq<char>), FirstErrorView>((self.state(), text@)),
                },
            decreases src.len() - self.current,
        {
            let c = self.peek();
            if !((c >= '0' && c <= '9') || c == '.') || self.current >= n {
                break;
            }
            if self.is_match('.') {
                if is_float {
                    failed = Some(self.error_here(string_of("couldn't parse number with two dots"), string_of("check your code.")));
                    break;
                }
                is_float = true;
                push_char(&mut text, '.');
                continue;
            }
            let ch = self.advance();
            push_char(&mut text, ch);
        }
        match failed {
            Some(e) => Err(e),
            None => {
                let tk = Token::new(TokenType::Number, text, self.here());
                proof {
                    Self::lemma_push_view(self.tokens@, tk);
                }
                self.tokens.push(tk);
                Ok(())
            },
        }
    }

    /// An identifier or reserved word starting with `start` (read): appends
    /// it as a token. `false` where the lexer would never stop.
    fn word_token(&mut self, start: char) -> (r: bool)
        requires
            old(self).fits(),
        ensures
            final(self).same_input(old(self)),
            final(self).fits(),
            if r {
                fl_ident(old(self).source(), old(self).blen(), old(self).state(), seq![start]) is Some
                    && final(self).state() == fl_push(
                        old(self).file(),
                        fl_ident(old(self).source(), old(self).blen(), old(self).state(), seq![start])->Some_0.0,
                        first_word_kind(fl_ident(old(self).source(), old(self).blen(), old(self).state(), seq![start])->Some_0.1),
                        fl_ident(old(self).source(), old(self).blen(), old(self).state(), seq![start])->Some_0.1,
                    )
                    && final(self).current >= old(self).current
            } else {
                fl_ident(old(self).source(), old(self).blen(), old(self).state(), seq![start]) is None
            },
    {
        let ghost src = self.source();
        let ghost blen = self.blen();
        let ghost st0 = self.state();
        let mut text = String::new();
        push_char(&mut text, start);
        let mut endless = false;
        proof {
            assert(text@ =~= seq![start]);
        }
        loop
            invariant_except_break
                fl_ident(src, blen, st0, seq![start]) == fl_ident(src, blen, self.state(), text@),
                !endless,
            invariant
                self.same_input(old(self)),
                src == self.source(),
                blen == self.blen(),
                self.fits(),
                self.current >= st0.current,
                self.state().line == st0.line,
                self.state().tokens == st0.tokens,
            ensures
                if endless {
                    fl_ident(src, blen, st0, seq![start]) is None
                } else {
                    fl_ident(src, blen, st0, seq![start]) == Some((self.state(), text@))
                },
            decreases src.len() - self.current,
        {
            let c = self.peek();
            match self.is_id(c) {
                None => {
                    endless = true;
                    break;
                },
                Some(false) => {
                    break;
                },
                Some(true) => {
                    assert(0 <= self.current < src.len());
                    let ch = self.advance();
                    push_char(&mut text, ch);
                },
            }
        }
        if endless {
            return false;
        }
        let kind = match first_keyword_of(text.as_str()) {
            Some(k) => k,
            None => TokenType::Id,
        };
        let tk = Token::new(kind, text, self.here());
        proof {
            Self::lemma_push_view(self.tokens@, tk);
        }
        self.tokens.push(tk);
        true
    }

    /// A `//` comment, the first slash read.
    fn line_comment(&mut self)
        requires
            old(self).fits(),
            old(self).line <= old(self).current,
            old(self).current <= old(self).byte_len,
        ensures
            final(self).same_input(old(self)),
            final(self).fits(),
            final(self).state() == fl_line_comment(old(self).source(), old(self).blen(), old(self).state()),
            final(self).current <= old(self).byte_len,
            final(self).current >= old(self).current,
    {
        let ghost src = self.source();
        let ghost blen = self.blen();
        let ghost st0 = self.state();
        loop
            invariant_except_break
                fl_line_comment(src, blen, st0) == fl_line_comment(src, blen, self.state()),
            invariant
                self.same_input(old(self)),
                src == self.source(),
                blen == self.blen(),
                self.fits(),
                self.current <= self.byte_len,
                self.line <= self.current,
                self.current >= st0.current,
            ensures
                fl_line_comment(src, blen, st0) == fl_newline(self.state()),
                self.line <= self.current,
            decreases blen - self.current,
        {
            if self.is_match('\n') {
                break;
            }
            if self.is_at_end() {
                break;
            }
            self.advance();
        }
        self.new_line();
    }

    /// A `/* */` comment, both opening characters read.
    fn block_comment(&mut self)
        requires
            old(self).fits(),
            old(self).current <= old(self).byte_len,
            old(self).line <= old(self).current,
        ensures
            final(self).same_input(old(self)),
            final(self).fits(),
            final(self).state() == fl_block_comment(old(self).source(), old(self).blen(), old(self).state()),
            final(self).current <= old(self).byte_len + 2,
            final(self).current >= old(self).current + 2,
    {
        let ghost src = self.source();
        let ghost blen = self.blen();
        let ghost st0 = self.state();
        loop
            invariant
                self.same_input(old(self)),
                src == self.source(),
                blen == self.blen(),
                self.fits(),
                self.current <= self.byte_len,
                self.current >= st0.current,
                self.line <= self.current,
                fl_block_comment(src, blen, st0) == fl_block_comment(src, blen, self.state()),
            ensures
                (fl_peek(src, self.state()) == '*' && fl_next(src, blen, self.state()) == '/') || fl_at_end(blen, self.state()),
            decreases blen - self.current,
        {
            if (self.peek() == '*' && self.next() == '/') || self.is_at_end() {
                break;
            }
            if self.is_match('\n') {
                self.new_line();
                continue;
            }
            self.advance();
        }
        self.advance();
        self.advance();
    }

    /// One turn of the lexer's loop, the position inside the text.
    fn step(&mut self) -> (r: Result<(), FirstLexFailure>)
        requires
            old(self).fits(),
            old(self).current < old(self).byte_len,
        ensures
            final(self).same_input(old(self)),
            final(self).fits(),
            match r {
                Ok(()) => fl_step(old(self).source(), old(self).blen(), old(self).file(), old(self).state()) == Ok::<FirstLexState, FirstLexFault>(final(self).state())
                    && old(self).current < final(self).current,
                Err(f) => fl_step(old(self).source(), old(self).blen(), old(self).file(), old(self).state()) == Err::<FirstLexState, FirstLexFault>(f@),
            },
    {
        let ch = self.advance();
        match ch {
            '?' => {
                self.add_tk(TokenType::Bang, "?");
                Ok(())
            },
            '+' => {
                self.op2(TokenType::AssignAdd, "+=", TokenType::Op, "+");
                Ok(())
            },
            '-' => {
                if self.is_match('=') {
                    self.add_tk(TokenType::AssignSub, "-=");
                } else if self.is_match('>') {
                    self.add_tk(TokenType::Arrow, "->");
                } else {
                    self.add_tk(TokenType::Op, "-");
                }
                Ok(())
            },
            '*' => {
                self.op2(TokenType::AssignMul, "*=", TokenType::Op, "*");
                Ok(())
            },
            '/' => {
                if self.is_match('=') {
                    self.add_tk(TokenType::AssignDiv, "/=");
                    Ok(())
                } else if self.is_match('/') {
                    self.line_comment();
                    Ok(())
                } else if self.is_match('*') {
                    self.block_comment();
                    Ok(())
                } else {
                    self.add_tk(TokenType::Op, "/");
                    Ok(())
                }
            },
            '(' => {
                self.add_tk(TokenType::Lparen, "(");
                Ok(())
            },
            ')' => {
                self.add_tk(TokenType::Rparen, ")");
                Ok(())
            },
            '{' => {
                self.add_tk(TokenType::Lbrace, "{");
                Ok(())
            },
            '}' => {
                self.add_tk(TokenType::Rbrace, "}");
                Ok(())
            },
            '[' => {
                self.add_tk(TokenType::Lbracket, "[");
                Ok(())
            },
            ']' => {
                self.add_tk(TokenType::Rbracket, "]");
                Ok(())
            },
            ',' => {
                self.add_tk(TokenType::Comma, ",");
                Ok(())
            },
            '.' => {
                self.add_tk(TokenType::Dot, ".");
                Ok(())
            },
            ':' => {
                self.op2(TokenType::Walrus, ":=", TokenType::Colon, ":");
                Ok(())
            },
            '<' => {
                self.op2(TokenType::LessEq, "<=", TokenType::Less, "<");
                Ok(())
            },
            '>' => {
                self.op2(TokenType::GreaterEq, ">=", TokenType::Greater, ">");
                Ok(())
            },
            '!' => {
                self.op2(TokenType::NotEq, "!=", TokenType::Bang, "!");
                Ok(())
            },
            '=' => {
                self.op2(TokenType::Eq, "==", TokenType::Assign, "=");
                Ok(())
            },
            '\r' => Ok(()),
            '\t' => Ok(()),
            '\n' => {
                self.new_line();
                Ok(())
            },
            ' ' => Ok(()),
            '\'' => match self.string_token() {
                Ok(()) => Ok(()),
                Err(e) => Err(FirstLexFailure::Failed(e)),
            },
            '|' => {
                if self.is_match('>') {
                    self.add_tk(TokenType::Pipe, "|>");
                    Ok(())
                } else {
                    Err(FirstLexFailure::Failed(self.error_here(string_of("expected > after | for pipe."), string_of("check your code."))))
                }
            },
            _ => {
                if ch >= '0' && ch <= '9' {
                    match self.number_token(ch) {
                        Ok(()) => Ok(()),
                        Err(e) => Err(FirstLexFailure::Failed(e)),
                    }
                } else if (ch >= 'a' && ch <= 'z') || (ch >= 'A' && ch <= 'Z') || ch == '_' {
                    if self.word_token(ch) {
                        Ok(())
                    } else {
                        Err(FirstLexFailure::Endless)
                    }
                } else {
                    let mut text = string_of("unexpected char: ");
                    push_char(&mut text, ch);
                    let mut hint = string_of("delete char: ");
                    push_char(&mut hint, ch);
                    Err(FirstLexFailure::Failed(self.error_here(text, hint)))
                }
            },
        }
    }

    /// Converts the source into tokens; reports why it cannot where it
    /// cannot (a lexical error, or a check that never finishes).
    pub fn try_lex(&mut self) -> (r: Result<Vec<Token>, FirstLexFailure>)
        requires
            old(self).fits(),
            old(self).state() == first_initial_state(),
        ensures
            match r {
                Ok(ts) => first_lex(old(self).source(), old(self).blen(), old(self).file()) == Ok::<Seq<FirstTokenView>, FirstLexFault>(first_tokens_view(ts@)),
                Err(f) => first_lex(old(self).source(), old(self).blen(), old(self).file()) == Err::<Seq<FirstTokenView>, FirstLexFault>(f@),
            },
    {
        let ghost src = self.source();
        let ghost blen = self.blen();
        let ghost file = self.file();
        let mut failure: Option<FirstLexFailure> = None;
        while !self.is_at_end()
            invariant_except_break
                failure is None,
                fl_run(src, blen, file, self.state()) == first_lex(src, blen, file),
            invariant
                self.same_input(old(self)),
                src == self.source(),
                blen == self.blen(),
                file == self.file(),
                self.fits(),
            ensures
                match failure {
                    Some(f) => first_lex(src, blen, file) == Err::<Seq<FirstTokenView>, FirstLexFault>(f@),
                    None => fl_run(src, blen, file, self.state()) == first_lex(src, blen, file) && fl_at_end(blen, self.state()),
                },
            decreases src.len() + blen + 3 - self.current,
        {
            match self.step() {
                Ok(()) => {},
                Err(f) => {
                    failure = Some(f);
                    break;
                },
            }
        }
        match failure {
            Some(f) => Err(f),
            None => {
                let ts = self.tokens.clone();
                proof {
                    assert forall|i: int| 0 <= i < ts@.len() implies ts@[i] == self.tokens@[i] by {
                        assert(vstd::pervasive::cloned(self.tokens@[i], ts@[i]));
                    }
                    assert(ts@ =~= self.tokens@);
                }
                Ok(ts)
            },
        }
    }

    /// Converts the source into tokens, or reports the first lexical error.
    pub fn lex(&mut self) -> (r: Result<Vec<Token>, Error>)
        requires
            old(self).fits(),
            old(self).state() == first_initial_state(),
            !(first_lex(old(self).source(), old(self).blen(), old(self).file()) is Err
                && first_lex(old(self).source(), old(self).blen(), old(self).file())->Err_0 is Endless),
        ensures
            match r {
                Ok(ts) => first_lex(old(self).source(), old(self).blen(), old(self).file()) == Ok::<Seq<FirstTokenView>, FirstLexFault>(first_tokens_view(ts@)),
                Err(e) => first_lex(old(self).source(), old(self).blen(), old(self).file()) == Err::<Seq<FirstTokenView>, FirstLexFault>(FirstLexFault::Failed(e@)),
            },
    {
        match self.try_lex() {
            Ok(ts) => Ok(ts),
            Err(FirstLexFailure::Failed(e)) => Err(e),
            Err(FirstLexFailure::Endless) => {
                proof {
                    assert(false);
                }
                Err(Error::new(ErrorType::Parsing, Address::unknown(), String::new(), String::new()))
            },
        }
    }
}

/// The reserved word a text spells, in the first syntax.
fn first_keyword_of(text: &str) -> (r: Option<TokenType>)
    ensures
        r == first_keyword(text@),
{
    if crate::text::str_equals(text, "fun") {
        Some(TokenType::Fun)
    } else if crate::text::str_equals(text, "break") {
        Some(TokenType::Break)
    } else if crate::text::str_equals(text, "if") {
        Some(TokenType::If)
    } else if crate::text::str_equals(text, "elif") {
        Some(TokenType::Elif)
    } else if crate::text::str_equals(text, "else") {
        Some(TokenType::Else)
    } else if crate::text::str_equals(text, "and") {
        Some(TokenType::And)
    } else if crate::text::str_equals(text, "or") {
        Some(TokenType::Or)
    } else if crate::text::str_equals(text, "import") {
        Some(TokenType::Import)
    } else if crate::text::str_equals(text, "type") {
        Some(TokenType::Type)
    } else if crate::text::str_equals(text, "new") {
        Some(TokenType::New)
    } else if crate::text::str_equals(text, "match") {
        Some(TokenType::Match)
    } else if crate::text::str_equals(text, "case") {
        Some(TokenType::Case)
    } else if crate::text::str_equals(text, "default") {
        Some(TokenType::Default)
    } else if crate::text::str_equals(text, "lambda") {
        Some(TokenType::Lambda)
    } else if crate::text::str_equals(text, "while") {
        Some(TokenType::While)
    } else if crate::text::str_equals(text, "unit") {
        Some(TokenType::Unit)
    } else if crate::text::str_equals(text, "for") {
        Some(TokenType::For)
    } else if crate::text::str_equals(text, "in") {
        Some(TokenType::In)
    } else if crate::text::str_equals(text, "continue") {
        Some(TokenType::Continue)
    } else if crate::text::str_equals(text, "from") {
        Some(TokenType::From)
    } else if crate::text::str_equals(text, "to") {
        Some(TokenType::To)
    } else if crate::text::str_equals(text, "return") {
        Some(TokenType::Ret)
    } else if crate::text::str_equals(text, "null") {
        Some(TokenType::Null)
    } else if crate::text::str_equals(text, "native") {
        Some(TokenType::Native)
    } else if crate::text::str_equals(text, "with") {
        Some(TokenType::With)
    } else {
        None
    }
}

} // verus!
