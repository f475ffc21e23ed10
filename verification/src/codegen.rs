//! The code-type record a per-language emitter consumes for a type that
//! some other interface definition owns: the emitter only needs the two
//! names derived from the type's own.

use vstd::prelude::*;
use vstd::string::StringExecFns;

verus! {

/// A type declared elsewhere, known here only by name.
pub struct ExternalCodeType {
    name: String,
}

impl ExternalCodeType {
    /// The name this record was built from.
    pub closed spec fn spec_name(&self) -> Seq<char> {
        self.name@
    }

    pub fn new(name: String) -> (r: Self)
        ensures
            r.spec_name() == name@,
    {
        ExternalCodeType { name }
    }

    /// The label target-language code refers to the type by: its own name.
    pub fn type_label(&self) -> (r: String)
        ensures
            r@ == self.spec_name(),
    {
        self.name.clone()
    }

    /// The unique name the generator files the type under.
    pub fn canonical_name(&self) -> (r: String)
        ensures
            r@ == "Type"@ + self.spec_name(),
    {
        let mut s = "Type".to_owned();
        s.append(self.name.as_str());
        s
    }
}

} // verus!
