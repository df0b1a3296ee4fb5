use vstd::prelude::*;

verus! {

/// The variables of the request that lists the projects: it carries none.
#[derive(Clone, Copy, Debug, PartialEq, Eq, Structural)]
pub struct Vars {}

impl Vars {
    /// The variables of the request.
    pub fn new() -> (vars: Self)
        ensures
            vars == (Vars {  }),
    {
        Vars {  }
    }
}

} // verus!
