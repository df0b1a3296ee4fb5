use vstd::prelude::*;

verus! {

/// The variables of the request that deletes a project.
#[derive(Clone, Debug, PartialEq, Eq)]
#[allow(non_snake_case)]
pub struct Vars {
    /// The project to delete.
    pub projectId: String,
}

impl Vars {
    /// The variables of the request for the given value.
    #[allow(non_snake_case)]
    pub fn new(projectId: String) -> (vars: Self)
        ensures
            vars.projectId == projectId,
    {
        Vars { projectId }
    }
}

} // verus!
