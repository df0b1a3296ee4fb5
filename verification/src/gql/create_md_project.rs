use vstd::prelude::*;

verus! {

/// The variables of the request that creates a project: it carries none.
#[derive(Clone, Copy, Debug, PartialEq, Eq, Structural)]
pub struct Vars {}

impl Vars {
    /// The variables of the request.
    pub fn new() -> (vars: Self)
        ensures
            vars == (Vars {  }),
    {
        Vars {  }
    }
}

} // verus!
