use vstd::prelude::*;

verus! {

/// The variables of the request that generates a model from an image.
#[derive(Clone, Debug, PartialEq, Eq)]
#[allow(non_snake_case)]
pub struct Vars {
    /// Where the image lies from which the model is generated.
    pub imagePath: String,
}

impl Vars {
    /// The variables of the request for the given value.
    #[allow(non_snake_case)]
    pub fn new(imagePath: String) -> (vars: Self)
        ensures
            vars.imagePath == imagePath,
    {
        Vars { imagePath }
    }
}

} // verus!
