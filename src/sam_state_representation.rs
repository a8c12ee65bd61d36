use vstd::prelude::*;

verus! {

/// Representation: projects a terminal model, together with caller context,
/// into the externally visible result.
pub trait SamStateRepresentation {
    type Result;
    type RepresentationData;
    type SamModel;
    type Error;

    /// The result (or the error) that `representation` yields.
    spec fn representation_spec(
        model: Self::SamModel,
        representation_data: Self::RepresentationData,
    ) -> Result<Self::Result, Self::Error>;

    fn representation(
        model: Self::SamModel,
        representation_data: Self::RepresentationData,
    ) -> (r: Result<Self::Result, Self::Error>)
        ensures
            r == Self::representation_spec(model, representation_data),
    ;
}

} // verus!
