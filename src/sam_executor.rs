use vstd::prelude::*;

use crate::{SamAction, SamModelPresent, SamStateNextAction, SamStateRepresentation};

verus! {

/// The action stage followed by the convergence loop stops: the action's
/// proposal is an error, or the loop started on it ends.
pub open spec fn action_converges<
    A: SamAction,
    N: SamStateNextAction<SamModel = A::SamModel, Error = A::Error>,
>(data: A::ActionData) -> bool {
    match A::execute_spec(data) {
        Ok(proposed) => crate::sam_state_next_action::converges(|d| N::predicate_spec(d), proposed),
        Err(_) => true,
    }
}

/// What the action stage followed by the convergence loop yields: the action's
/// error, or what the loop started on the proposed model yields.
pub open spec fn action_outcome<
    A: SamAction,
    N: SamStateNextAction<SamModel = A::SamModel, Error = A::Error>,
>(data: A::ActionData) -> Result<A::SamModel, A::Error> {
    match A::execute_spec(data) {
        Ok(proposed) => crate::sam_state_next_action::convergence(|d| N::predicate_spec(d), proposed),
        Err(e) => Err(e),
    }
}

/// What a whole run yields: the first error of the action, of the convergence
/// loop or of the representation, in that order, else the representation of
/// the terminal model.
pub open spec fn pipeline_outcome<
    A: SamAction,
    N: SamStateNextAction<SamModel = A::SamModel, Error = A::Error>,
    R: SamStateRepresentation<SamModel = A::SamModel, Error = A::Error>,
>(data: A::ActionData, representation_data: R::RepresentationData) -> Result<R::Result, A::Error> {
    match A::execute_spec(data) {
        Err(e) => Err(e),
        Ok(proposed) => match crate::sam_state_next_action::convergence(|d| N::predicate_spec(d), proposed) {
            Err(e) => Err(e),
            Ok(terminal) => R::representation_spec(terminal, representation_data),
        },
    }
}

/// Executor: binds the concrete model, data, result and error types and the
/// NextAction and Representation roles, and runs them in order behind an
/// action.
pub trait SamExecutor {
    type Result;
    type RepresentationData;
    type SamModel: SamModelPresent<ActionData = Self::ActionData, Error = Self::Error>;
    type ActionData;
    type Error;
    type StateNextAction: SamStateNextAction<SamModel = Self::SamModel, Error = Self::Error>;
    type StateRepresentation: SamStateRepresentation<
        Result = Self::Result,
        RepresentationData = Self::RepresentationData,
        SamModel = Self::SamModel,
        Error = Self::Error,
    >;

    /// Runs the action `A` on `data`, then the convergence loop on the
    /// proposed model; the first error is returned as it is.
    fn do_action<
        A: SamAction<SamModel = Self::SamModel, ActionData = Self::ActionData, Error = Self::Error>,
    >(data: Self::ActionData) -> (r: Result<Self::SamModel, Self::Error>)
        requires
            action_converges::<A, Self::StateNextAction>(data),
        ensures
            r == action_outcome::<A, Self::StateNextAction>(data),
    {
        let model = match A::execute(data) {
            Ok(v) => v,
            Err(e) => return Err(e),
        };
        Self::StateNextAction::next_action(model)
    }

    /// Projects a terminal model through the representation role.
    fn do_representation(
        model: Self::SamModel,
        representation_data: Self::RepresentationData,
    ) -> (r: Result<Self::Result, Self::Error>)
        ensures
            r == Self::StateRepresentation::representation_spec(model, representation_data),
    {
        Self::StateRepresentation::representation(model, representation_data)
    }

    /// A whole run: `do_action`, then `do_representation` on its model; the
    /// first error is returned as it is and no later stage runs.
    fn execute<
        A: SamAction<SamModel = Self::SamModel, ActionData = Self::ActionData, Error = Self::Error>,
    >(data: Self::ActionData, representation_data: Self::RepresentationData) -> (r: Result<
        Self::Result,
        Self::Error,
    >)
        requires
            action_converges::<A, Self::StateNextAction>(data),
        ensures
            r == pipeline_outcome::<A, Self::StateNextAction, Self::StateRepresentation>(
                data,
                representation_data,
            ),
    {
        let model = match Self::do_action::<A>(data) {
            Ok(v) => v,
            Err(e) => return Err(e),
        };
        Self::do_representation(model, representation_data)
    }
}

/// The first error of any stage is what a whole run returns: an error of the
/// action, else one of the convergence loop, else one of the representation.
pub proof fn lemma_first_error_wins<
    A: SamAction,
    N: SamStateNextAction<SamModel = A::SamModel, Error = A::Error>,
    R: SamStateRepresentation<SamModel = A::SamModel, Error = A::Error>,
>(data: A::ActionData, representation_data: R::RepresentationData)
    ensures
        A::execute_spec(data) is Err ==> pipeline_outcome::<A, N, R>(data, representation_data)
            == Err::<R::Result, A::Error>(A::execute_spec(data)->Err_0),
        A::execute_spec(data) is Ok && crate::sam_state_next_action::convergence(
            |d| N::predicate_spec(d),
            A::execute_spec(data)->Ok_0,
        ) is Err ==> pipeline_outcome::<A, N, R>(data, representation_data) == Err::<
            R::Result,
            A::Error,
        >(crate::sam_state_next_action::convergence(|d| N::predicate_spec(d), A::execute_spec(data)->Ok_0)->Err_0),
        action_outcome::<A, N>(data) is Ok && R::representation_spec(
            action_outcome::<A, N>(data)->Ok_0,
            representation_data,
        ) is Err ==> pipeline_outcome::<A, N, R>(data, representation_data)
            == R::representation_spec(action_outcome::<A, N>(data)->Ok_0, representation_data),
{
}

/// A whole run is the action stage and the convergence loop, then the
/// representation of the model they yield: `execute` gives what `do_action`
/// followed by `do_representation` on its model gives.
pub proof fn lemma_execute_composes<
    A: SamAction,
    N: SamStateNextAction<SamModel = A::SamModel, Error = A::Error>,
    R: SamStateRepresentation<SamModel = A::SamModel, Error = A::Error>,
>(data: A::ActionData, representation_data: R::RepresentationData)
    ensures
        pipeline_outcome::<A, N, R>(data, representation_data) == match action_outcome::<A, N>(
            data,
        ) {
            Ok(model) => R::representation_spec(model, representation_data),
            Err(e) => Err(e),
        },
{
}

} // verus!
