use crate::control::action::{ActionView, Reducer, ReducerError, ReducerErrorView};
use crate::control::state::{MachineState, OrderLineView, State, StateView};
use vstd::prelude::*;

verus! {

/// Closes the round: the collected order lines are final.
#[derive(Debug, Clone, PartialEq, Eq)]
pub struct Finalize {}

/// Finalizing: the phase is checked first, then the data. Outside
/// `TakeOrders` the action is an invalid transition; in `TakeOrders` without
/// any order line it is an invalid state; otherwise the phase becomes
/// `Ordered` and the order lines stay as they are.
pub open spec fn finalize(state: StateView) -> Result<StateView, ReducerErrorView> {
    if state.machine_state != MachineState::TakeOrders {
        Err(
            ReducerErrorView::InvalidTransition {
                message: "there is nothing to finalize right now"@,
            },
        )
    } else if state.orders == Map::<Seq<char>, Seq<OrderLineView>>::empty() {
        Err(
            ReducerErrorView::InvalidState {
                message: "there are no orders, won't finalize an empty order"@,
            },
        )
    } else {
        Ok(StateView { machine_state: MachineState::Ordered, orders: state.orders })
    }
}

impl Reducer for Finalize {
    open spec fn intent(&self) -> ActionView {
        ActionView::Finalize
    }

    fn reduce(&self, state: State) -> (outcome: Result<State, ReducerError>) {
        if state.machine_state() != MachineState::TakeOrders {
            return Err(
                ReducerError::InvalidTransition {
                    message: "there is nothing to finalize right now".to_owned(),
                },
            );
        }
        if state.is_empty() {
            return Err(
                ReducerError::InvalidState {
                    message: "there are no orders, won't finalize an empty order".to_owned(),
                },
            );
        }
        Ok(state.with_machine_state(MachineState::Ordered))
    }
}

} // verus!
