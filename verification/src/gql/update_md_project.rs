use vstd::prelude::*;

verus! {

/// The variables of the request that updates a project.
#[derive(Clone, Debug, PartialEq, Eq)]
#[allow(non_snake_case)]
pub struct Vars {
    /// The project to update.
    pub projectId: String,
    /// The project's new title.
    pub title: String,
    /// The project's saved state, serialised.
    pub context: String,
}

impl Vars {
    /// The variables of the request for the given values.
    #[allow(non_snake_case)]
    pub fn new(projectId: String, title: String, context: String) -> (vars: Self)
        ensures
            vars.projectId == projectId,
            vars.title == title,
            vars.context == context,
    {
        Vars { projectId, title, context }
    }
}

} // verus!
