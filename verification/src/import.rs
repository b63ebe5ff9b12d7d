use vstd::prelude::*;
use vstd::string::*;
use crate::text::{debug_str, debug_text, string_of};

verus! {

/// An import of the first syntax: a module name and an optional full name.
#[derive(Debug, Clone, PartialEq, Eq, Hash)]
pub struct Import {
    name: String,
    full_name: Option<String>,
}

impl Import {
    /// The module name.
    pub closed spec fn name(&self) -> Seq<char> {
        self.name@
    }

    /// The full name, when one was given.
    pub closed spec fn full_name(&self) -> Option<String> {
        self.full_name
    }

    /// A new import.
    pub fn new(name: String, full_name: Option<String>) -> (r: Self)
        ensures
            r.name() == name@,
            r.full_name() == full_name,
    {
        Import { name, full_name }
    }
}

/// The text `{:?}` writes for an optional string.
pub open spec fn opt_string_shown(o: Option<String>) -> Seq<char> {
    match o {
        Some(s) => "Some("@ + debug_str(s@) + ")"@,
        None => "None"@,
    }
}

impl Import {
    /// The text `{:?}` writes for the import.
    pub closed spec fn shown(&self) -> Seq<char> {
        "Import { name: "@ + debug_str(self.name@) + ", full_name: "@ + opt_string_shown(self.full_name) + " }"@
    }

    /// The text `{:?}` writes for the import.
    pub fn shown_text(&self) -> (r: String)
        ensures
            r@ =~= self.shown(),
    {
        let mut s = string_of("Import { name: ");
        s.append(debug_text(self.name.as_str()).as_str());
        s.append(", full_name: ");
        match &self.full_name {
            Some(f) => {
                s.append("Some(");
                s.append(debug_text(f.as_str()).as_str());
                s.append(")");
            },
            None => {
                s.append("None");
            },
        }
        s.append(" }");
        s
    }
}

} // verus!
