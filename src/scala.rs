use vstd::prelude::*;
use vstd::string::*;

verus! {

/// Names the Scala language server.
#[derive(Clone, Copy, Debug, PartialEq, Eq, Structural)]
pub struct ScalaLspAdapter;

impl ScalaLspAdapter {
    /// The language server's name.
    pub fn name(&self) -> (r: String)
        ensures
            r@ == "metals"@,
    {
        String::from_str("metals")
    }

    /// The short name shown in the interface.
    pub fn short_name(&self) -> (r: &'static str)
        ensures
            r@ == "metals"@,
    {
        "metals"
    }
}

} // verus!
