pub mod errors;

use vstd::prelude::*;
use crate::lexer::address::Address;

verus! {

/// The stage at which an [`Error`] of the first syntax arose.
pub enum ErrorType {
    Parsing,
    Runtime,
    Semantic,
    Compilation,
}

/// The mathematical content of an [`Error`] of the first syntax.
pub struct FirstErrorView {
    pub kind: ErrorType,
    pub addr: Address,
    pub text: Seq<char>,
    pub hint: Seq<char>,
}

/// A diagnostic of the first syntax: its stage, place, text and hint.
pub struct Error {
    error_type: ErrorType,
    addr: Address,
    text: String,
    hint: String,
}

impl View for Error {
    type V = FirstErrorView;

    closed spec fn view(&self) -> FirstErrorView {
        FirstErrorView { kind: self.error_type, addr: self.addr, text: self.text@, hint: self.hint@ }
    }
}

impl Error {
    /// The stage.
    pub closed spec fn kind(&self) -> ErrorType {
        self.error_type
    }

    /// Where it arose.
    pub closed spec fn address(&self) -> Address {
        self.addr
    }

    /// What went wrong.
    pub closed spec fn text(&self) -> Seq<char> {
        self.text@
    }

    /// How to mend it.
    pub closed spec fn hint(&self) -> Seq<char> {
        self.hint@
    }

    /// A new error.
    pub fn new(error_type: ErrorType, addr: Address, text: String, hint: String) -> (r: Self)
        ensures
            r.kind() == error_type,
            r.address() == addr,
            r.text() == text@,
            r.hint() == hint@,
            r@ == (FirstErrorView { kind: error_type, addr, text: text@, hint: hint@ }),
    {
        Error { error_type, addr, text, hint }
    }

    /// What went wrong.
    pub fn get_text(&self) -> (r: &str)
        ensures
            r@ == self.text(),
    {
        self.text.as_str()
    }

    /// How to mend it.
    pub fn get_hint(&self) -> (r: &str)
        ensures
            r@ == self.hint(),
    {
        self.hint.as_str()
    }
}

} // verus!
