use vstd::prelude::*;

verus! {

/// The variables of the request that generates a concept image.
#[derive(Clone, Debug, PartialEq, Eq)]
#[allow(non_snake_case)]
pub struct Vars {
    /// The text from which the concept is generated.
    pub prompt: String,
}

impl Vars {
    /// The variables of the request for the given value.
    #[allow(non_snake_case)]
    pub fn new(prompt: String) -> (vars: Self)
        ensures
            vars.prompt == prompt,
    {
        Vars { prompt }
    }
}

} // verus!
