use crate::control::action::{ActionView, Reducer, ReducerError, ReducerErrorView};
use crate::control::state::{initial_state, MachineState, State, StateView};
use crate::control::user::User;
use vstd::prelude::*;

verus! {

/// Cancels the order lines of one participant, or, without a participant, the
/// whole round.
#[derive(Debug, Clone, PartialEq, Eq)]
pub struct Cancel {
    pub user: Option<User>,
}

/// Cancelling: in `TakeOrders`, with a participant, that participant's lines
/// leave and the phase stays; without one, all lines leave and the session is
/// idle again. Refused in any other phase.
pub open spec fn cancel(user: Option<Seq<char>>, state: StateView) -> Result<
    StateView,
    ReducerErrorView,
> {
    if state.machine_state != MachineState::TakeOrders {
        Err(
            ReducerErrorView::InvalidTransition {
                message: "there is nothing to cancel or it's already too late"@,
            },
        )
    } else {
        match user {
            Some(name) => Ok(
                StateView {
                    machine_state: MachineState::TakeOrders,
                    orders: state.orders.remove(name),
                },
            ),
            None => Ok(initial_state()),
        }
    }
}

impl Reducer for Cancel {
    open spec fn intent(&self) -> ActionView {
        ActionView::Cancel {
            user: match self.user {
                Some(user) => Some(user@),
                None => None,
            },
        }
    }

    fn reduce(&self, state: State) -> (outcome: Result<State, ReducerError>) {
        if state.machine_state() != MachineState::TakeOrders {
            return Err(
                ReducerError::InvalidTransition {
                    message: "there is nothing to cancel or it's already too late".to_owned(),
                },
            );
        }
        match &self.user {
            Some(user) => Ok(state.without(user)),
            None => Ok(State::new()),
        }
    }
}

} // verus!
