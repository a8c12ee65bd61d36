use vstd::prelude::*;

verus! {

/// Present: builds a candidate model from the data an action carries.
/// Implemented on the model type itself.
pub trait SamModelPresent: Sized {
    type ActionData;
    type Error;

    /// The model (or the error) that `present` yields for `data`.
    spec fn present_spec(data: Self::ActionData) -> Result<Self, Self::Error>;

    fn present(data: Self::ActionData) -> (r: Result<Self, Self::Error>)
        ensures
            r == Self::present_spec(data),
    ;
}

} // verus!
