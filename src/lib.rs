//! A minimal State-Action-Model runtime: an action proposes a model, a
//! convergence predicate drives it to a terminal state, and a representation
//! projects the terminal model into a result.
pub mod next_action_data;
pub use next_action_data::NextActionData;

pub mod sam_action;
pub use sam_action::SamAction;

pub mod sam_model_present;
pub use sam_model_present::SamModelPresent;

pub mod sam_state_next_action;
pub use sam_state_next_action::SamStateNextAction;

pub mod sam_state_representation;
pub use sam_state_representation::SamStateRepresentation;

pub mod sam_executor;
pub use sam_executor::SamExecutor;
