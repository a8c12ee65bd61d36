use vstd::prelude::*;

use crate::SamModelPresent;

verus! {

/// Action: the entry point that turns action data into a proposed model. It
/// reaches Present through its model type, and may add logic around it.
pub trait SamAction {
    type SamModel: SamModelPresent<ActionData = Self::ActionData, Error = Self::Error>;
    type ActionData;
    type Error;

    /// The proposed model (or the error) that `execute` yields for `data`.
    spec fn execute_spec(data: Self::ActionData) -> Result<Self::SamModel, Self::Error>;

    fn execute(data: Self::ActionData) -> (r: Result<Self::SamModel, Self::Error>)
        ensures
            r == Self::execute_spec(data),
    ;
}

} // verus!
