use crate::control::action::{ActionView, Reducer, ReducerError, ReducerErrorView};
use crate::control::state::{MachineState, State, StateView};
use vstd::prelude::*;

verus! {

/// Opens a round: participants may place orders from now on.
#[derive(Debug, Clone, PartialEq, Eq)]
pub struct StartOrder {}

/// Opening a round: from `Idle` to `TakeOrders`, refused in any other phase.
/// The order lines stay as they are.
pub open spec fn start_order(state: StateView) -> Result<StateView, ReducerErrorView> {
    if state.machine_state == MachineState::Idle {
        Ok(StateView { machine_state: MachineState::TakeOrders, orders: state.orders })
    } else {
        Err(ReducerErrorView::InvalidTransition { message: "cannot start ordering right now"@ })
    }
}

impl Reducer for StartOrder {
    open spec fn intent(&self) -> ActionView {
        ActionView::StartOrder
    }

    fn reduce(&self, state: State) -> (outcome: Result<State, ReducerError>) {
        if state.machine_state() == MachineState::Idle {
            Ok(state.with_machine_state(MachineState::TakeOrders))
        } else {
            Err(
                ReducerError::InvalidTransition {
                    message: "cannot start ordering right now".to_owned(),
                },
            )
        }
    }
}

} // verus!
