use crate::control::action::{ActionView, Reducer, ReducerError, ReducerErrorView};
use crate::control::menu::{MenuItem, MenuItemView};
use crate::control::state::{lines_of, MachineState, OrderLineView, State, StateView};
use crate::control::user::User;
use vstd::prelude::*;

verus! {

/// Adds one menu item to a participant's order lines.
#[derive(Debug, Clone, PartialEq, Eq)]
pub struct AddItem {
    pub user: User,
    pub menu_item: MenuItem,
}

/// Adding an item: in `TakeOrders` a new unpaid line goes to the end of the
/// participant's lines, and a participant without lines gets the first one.
/// The same item may be added any number of times. Refused in any other phase.
pub open spec fn add_item(user: Seq<char>, menu_item: MenuItemView, state: StateView) -> Result<
    StateView,
    ReducerErrorView,
> {
    if state.machine_state == MachineState::TakeOrders {
        Ok(
            StateView {
                machine_state: MachineState::TakeOrders,
                orders: state.orders.insert(
                    user,
                    lines_of(state, user).push(OrderLineView { user, menu_item, paid: false }),
                ),
            },
        )
    } else {
        Err(ReducerErrorView::InvalidTransition { message: "cannot place orders right now"@ })
    }
}

impl Reducer for AddItem {
    open spec fn intent(&self) -> ActionView {
        ActionView::AddItem { user: self.user@, menu_item: self.menu_item@ }
    }

    fn reduce(&self, state: State) -> (outcome: Result<State, ReducerError>) {
        if state.machine_state() != MachineState::TakeOrders {
            return Err(
                ReducerError::InvalidTransition {
                    message: "cannot place orders right now".to_owned(),
                },
            );
        }
        Ok(state.with_line(self.user.clone(), self.menu_item.clone()))
    }
}

} // verus!
