//! The general application model.
use vstd::prelude::*;

verus! {

/// The general application model (it holds no state yet).
pub struct Model {}

impl Model {
    /// A new model.
    pub fn new() -> (r: Self)
        ensures
            r == (Model {}),
    {
        Model {}
    }
}

} // verus!
