use vstd::prelude::*;

verus! {

/// The signal that drives the convergence loop: exactly one of two variants,
/// each wrapping the current model.
pub enum NextActionData<M> {
    /// The model is not settled yet: the predicate runs again.
    Continue { model: M },
    /// The model is terminal: the loop stops and yields it.
    Terminate { model: M },
}

impl<M> NextActionData<M> {
    /// The model carried by the signal, whichever variant is active.
    pub open spec fn model(self) -> M {
        match self {
            NextActionData::Continue { model } => model,
            NextActionData::Terminate { model } => model,
        }
    }

    pub fn new_continue(model: M) -> (r: NextActionData<M>)
        ensures
            r == (NextActionData::Continue { model }),
    {
        NextActionData::Continue { model }
    }

    pub fn new_terminate(model: M) -> (r: NextActionData<M>)
        ensures
            r == (NextActionData::Terminate { model }),
    {
        NextActionData::Terminate { model }
    }

    /// Unwraps the signal into its model.
    pub fn get(self) -> (r: M)
        ensures
            r == self.model(),
    {
        match self {
            NextActionData::Continue { model } => model,
            NextActionData::Terminate { model } => model,
        }
    }
}

} // verus!
