use vstd::prelude::*;
use crate::text::{debug_str, debug_text, string_of};
use crate::vm::strings::{digits_of, nat_text};

verus! {

/// A position in a source file: line, column and (when known) the file.
#[derive(Debug, PartialEq, Eq, Hash)]
pub struct Address {
    pub line: u64,
    pub column: u16,
    pub file: Option<String>,
}

impl Clone for Address {
    fn clone(&self) -> (r: Self)
        ensures
            r == *self,
    {
        Address { line: self.line, column: self.column, file: self.file.clone() }
    }
}

impl Address {
    /// A known position inside `file_path`.
    pub fn new(line: u64, column: u16, file_path: String) -> (r: Address)
        ensures
            r == (Address { line, column, file: Some(file_path) }),
    {
        Address { line, column, file: Some(file_path) }
    }

    /// The position used where no source location exists.
    pub fn unknown() -> (r: Address)
        ensures
            r == (Address { line: 0, column: 0, file: None }),
    {
        Address { line: 0, column: 0, file: None }
    }
}

/// The text `{:?}` writes for an address.
pub open spec fn address_shown(a: Address) -> Seq<char> {
    "Address { line: "@ + digits_of(a.line as nat) + ", column: "@ + digits_of(a.column as nat) + ", file: "@ + match a.file {
        Some(f) => "Some("@ + debug_str(f@) + ")"@,
        None => "None"@,
    } + " }"@
}

impl Address {
    /// The text `{:?}` writes for the address.
    pub fn shown_text(&self) -> (r: String)
        ensures
            r@ =~= address_shown(*self),
    {
        let mut s = string_of("Address { line: ");
        s.append(nat_text(self.line).as_str());
        s.append(", column: ");
        s.append(nat_text(self.column as u64).as_str());
        s.append(", file: ");
        match &self.file {
            Some(f) => {
                s.append("Some(");
                s.append(debug_text(f.as_str()).as_str());
                s.append(")");
            },
            None => {
                s.append("None");
            },
        }
        s.append(" }");
        s
    }
}

} // verus!
