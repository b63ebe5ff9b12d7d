use vstd::prelude::*;
use crate::lexer::address::Address;

verus! {

/// One imported file: where the import was written, the file (or library)
/// name, and an optional prefix that overrides the full names it declares.
#[derive(Debug, PartialEq, Eq, Hash)]
pub struct Import {
    pub addr: Option<Address>,
    pub file: String,
    pub full_name: Option<String>,
}

/// The mathematical content of an [`Import`].
pub struct ImportView {
    pub addr: Option<Address>,
    pub file: Seq<char>,
    pub full_name: Option<Seq<char>>,
}

impl View for Import {
    type V = ImportView;

    open spec fn view(&self) -> ImportView {
        ImportView {
            addr: self.addr,
            file: self.file@,
            full_name: match self.full_name {
                Some(s) => Some(s@),
                None => None,
            },
        }
    }
}

impl Clone for Import {
    fn clone(&self) -> (r: Self)
        ensures
            r == *self,
    {
        Import { addr: self.addr.clone(), file: self.file.clone(), full_name: self.full_name.clone() }
    }
}

impl Import {
    /// New import
    ///
    /// * `addr`: optional import address
    /// * `file`: import file
    /// * `full_name`: optional full name prefix override
    pub fn new(addr: Option<Address>, file: String, full_name: Option<String>) -> (r: Self)
        ensures
            r == (Import { addr, file, full_name }),
    {
        Import { addr, file, full_name }
    }
}

} // verus!
