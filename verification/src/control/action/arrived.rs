use crate::control::action::{ActionView, Reducer, ReducerError, ReducerErrorView};
use crate::control::state::{MachineState, State, StateView};
use vstd::prelude::*;

verus! {

/// Reports that the order has arrived.
#[derive(Debug, Clone, PartialEq, Eq)]
pub struct Arrived {}

/// Arrival: from `Ordered` to `Idle`, refused in any other phase. The order
/// lines are kept, so the round that is opened next starts with them; only
/// cancelling a round as a whole removes them.
pub open spec fn arrived(state: StateView) -> Result<StateView, ReducerErrorView> {
    if state.machine_state == MachineState::Ordered {
        Ok(StateView { machine_state: MachineState::Idle, orders: state.orders })
    } else {
        Err(ReducerErrorView::InvalidTransition { message: "nothing arrived that was ordered"@ })
    }
}

impl Reducer for Arrived {
    open spec fn intent(&self) -> ActionView {
        ActionView::Arrived
    }

    fn reduce(&self, state: State) -> (outcome: Result<State, ReducerError>) {
        if state.machine_state() == MachineState::Ordered {
            Ok(state.with_machine_state(MachineState::Idle))
        } else {
            Err(
                ReducerError::InvalidTransition {
                    message: "nothing arrived that was ordered".to_owned(),
                },
            )
        }
    }
}

} // verus!
