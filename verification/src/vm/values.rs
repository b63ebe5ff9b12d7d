use vstd::prelude::*;

verus! {

/// The name of a runtime entity, with the full name it was declared under.
#[derive(Clone, Debug, PartialEq, Eq)]
pub struct Symbol {
    pub name: String,
    pub full_name: Option<String>,
}

impl Symbol {
    /// A symbol with a full name.
    pub fn new(name: String, full_name: String) -> (r: Symbol)
        ensures
            r == (Symbol { name, full_name: Some(full_name) }),
    {
        Symbol { name, full_name: Some(full_name) }
    }

    /// A symbol whose full name may be missing.
    pub fn new_option(name: String, full_name: Option<String>) -> (r: Symbol)
        ensures
            r == (Symbol { name, full_name }),
    {
        Symbol { name, full_name }
    }

    /// A symbol known by its name alone.
    pub fn by_name(name: String) -> (r: Symbol)
        ensures
            r == (Symbol { name, full_name: None }),
    {
        Symbol { name, full_name: None }
    }
}

} // verus!
