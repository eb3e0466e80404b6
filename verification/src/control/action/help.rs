use crate::control::action::{ActionView, Reducer, ReducerError, ReducerErrorView};
use crate::control::state::{State, StateView};
use vstd::prelude::*;

verus! {

/// Asks for the current session to be shown. It changes nothing.
#[derive(Debug, Clone, PartialEq, Eq)]
pub struct Help {}

/// Asking for help is accepted in every phase and leaves the session as it
/// is.
pub open spec fn help(state: StateView) -> Result<StateView, ReducerErrorView> {
    Ok(state)
}

impl Reducer for Help {
    open spec fn intent(&self) -> ActionView {
        ActionView::Help
    }

    fn reduce(&self, state: State) -> (outcome: Result<State, ReducerError>)
        ensures
            outcome == Ok::<State, ReducerError>(state),
    {
        Ok(state)
    }
}

} // verus!
