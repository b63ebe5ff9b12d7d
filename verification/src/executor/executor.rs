use vstd::prelude::*;
use vstd::string::*;
use crate::errors::errors::{Error, ErrorView};
use crate::lexer::lexer::{LexFailure, LexFault, Lexer, Token, TokenView, spec_lex, tokens_view};
use crate::parser::ast::{Node, NodeView};
use crate::parser::grammar::{ParseCtx, spec_parse};
use crate::parser::parser::Parser;
use crate::semantic::analyzer::{Analyzer, AnalyzerNode, analysis_error};
use crate::text::string_of;

verus! {

/// The index of the last `.` among the first `k` characters of `s`, or -1.
pub open spec fn last_dot(s: Seq<char>, k: int) -> int
    decreases k,
{
    if k <= 0 || k > s.len() {
        -1
    } else if s[k - 1] == '.' {
        k - 1
    } else {
        last_dot(s, k - 1)
    }
}

/// A file name without what follows its last `.`, the dot included.
pub open spec fn without_extension(s: Seq<char>) -> Seq<char> {
    if last_dot(s, s.len() as int) >= 0 {
        s.subrange(0, last_dot(s, s.len() as int))
    } else {
        s
    }
}

/// The prefix of full names a file gets: the given prefix, or else the file
/// name, without its extension.
pub open spec fn name_prefix(file_name: Seq<char>, full_name_prefix: Option<String>) -> Seq<char> {
    match full_name_prefix {
        Some(p) => without_extension(p@),
        None => without_extension(file_name),
    }
}

proof fn lemma_last_dot_range(s: Seq<char>, k: int)
    requires
        0 <= k <= s.len(),
    ensures
        -1 <= last_dot(s, k) < k,
        last_dot(s, k) >= 0 ==> s[last_dot(s, k)] == '.',
    decreases k,
{
    if 0 < k <= s.len() && s[k - 1] != '.' {
        lemma_last_dot_range(s, k - 1);
    }
}

/// Removes the extension of a file name: everything from its last `.` on.
pub fn delete_extension(full_name: String) -> (r: String)
    ensures
        r@ == without_extension(full_name@),
{
    let n = full_name.as_str().unicode_len();
    let mut k: usize = n;
    while k > 0
        invariant
            k <= n,
            n == full_name@.len(),
            last_dot(full_name@, k as int) == last_dot(full_name@, n as int),
        ensures
            k > 0 ==> full_name@[k - 1] == '.',
        decreases k,
    {
        if full_name.as_str().get_char(k - 1) == '.' {
            break;
        }
        k = k - 1;
    }
    proof {
        lemma_last_dot_range(full_name@, n as int);
    }
    if k > 0 {
        string_of(full_name.as_str().substring_char(0, k - 1))
    } else {
        full_name
    }
}

/// The tokens of `code`, a file named `file_name`.
pub fn lex(file_name: String, code: &[char]) -> (r: Result<Vec<Token>, LexFailure>)
    requires
        code@.len() + 4 <= usize::MAX,
    ensures
        match r {
            Ok(ts) => spec_lex(code@, file_name) == Ok::<Seq<TokenView>, LexFault>(tokens_view(ts@)),
            Err(f) => spec_lex(code@, file_name) == Err::<Seq<TokenView>, LexFault>(f@),
        },
{
    Lexer::new(code, file_name).try_lex()
}

/// The syntax tree of the tokens of a file named `file_name`; declared names
/// get the prefix `full_name_prefix`, or else the file name, without extension.
pub fn parse(file_name: String, tokens: Vec<Token>, full_name_prefix: Option<String>) -> (r: Result<Node, Error>)
    ensures
        ({
            let c = ParseCtx { toks: tokens_view(tokens@), file: file_name, prefix: name_prefix(file_name@, full_name_prefix) };
            match r {
                Ok(n) => spec_parse(c) == Ok::<NodeView, ErrorView>(n@),
                Err(e) => spec_parse(c) == Err::<NodeView, ErrorView>(e@),
            }
        }),
{
    let prefix = match full_name_prefix {
        Some(p) => p,
        None => file_name.clone(),
    };
    let mut parser = Parser::new(tokens, file_name, delete_extension(prefix));
    parser.parse()
}

/// Runs the semantic analysis over a whole program, from the top level.
pub fn analyze(ast: Node) -> (r: Result<Node, Error>)
    ensures
        match r {
            Ok(n) => n == ast && analysis_error(ast@, Seq::<AnalyzerNode>::empty()) is None,
            Err(e) => analysis_error(ast@, Seq::<AnalyzerNode>::empty()) == Some(e@),
        },
{
    let mut analyzer = Analyzer::new();
    match analyzer.analyze(&ast) {
        Ok(_) => {},
        Err(e) => {
            return Err(e);
        },
    }
    Ok(ast)
}

} // verus!
