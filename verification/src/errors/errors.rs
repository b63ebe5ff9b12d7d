use vstd::prelude::*;
use crate::lexer::address::Address;
use crate::text::string_of;

verus! {

/// A diagnostic: where it happened, what went wrong, and a hint.
#[derive(Debug)]
pub struct Error {
    pub addr: Address,
    pub text: String,
    pub hint: String,
}

/// The mathematical content of an [`Error`].
pub struct ErrorView {
    pub addr: Address,
    pub text: Seq<char>,
    pub hint: Seq<char>,
}

impl View for Error {
    type V = ErrorView;

    open spec fn view(&self) -> ErrorView {
        ErrorView { addr: self.addr, text: self.text@, hint: self.hint@ }
    }
}

/// The error value built from an address and two texts.
pub open spec fn error_of(addr: Address, text: Seq<char>, hint: Seq<char>) -> ErrorView {
    ErrorView { addr, text, hint }
}

impl Clone for Error {
    fn clone(&self) -> (r: Self)
        ensures
            r@ == self@,
    {
        Error { addr: self.addr.clone(), text: self.text.clone(), hint: self.hint.clone() }
    }
}

impl Error {
    /// An error whose texts are literals.
    pub fn new(addr: Address, text: &'static str, hint: &'static str) -> (r: Self)
        ensures
            r@ == error_of(addr, text@, hint@),
    {
        Error { addr, text: string_of(text), hint: string_of(hint) }
    }

    /// An error whose texts are both owned strings.
    pub fn own(addr: Address, text: String, hint: String) -> (r: Self)
        ensures
            r@ == error_of(addr, text@, hint@),
    {
        Error { addr, text, hint }
    }

    /// An error with an owned text and a literal hint.
    pub fn own_text(addr: Address, text: String, hint: &'static str) -> (r: Self)
        ensures
            r@ == error_of(addr, text@, hint@),
    {
        Error { addr, text, hint: string_of(hint) }
    }

    /// An error with a literal text and an owned hint.
    pub fn own_hint(addr: Address, text: &'static str, hint: String) -> (r: Self)
        ensures
            r@ == error_of(addr, text@, hint@),
    {
        Error { addr, text: string_of(text), hint }
    }
}

} // verus!
