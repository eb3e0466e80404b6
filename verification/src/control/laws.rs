//! What holds of every session and every action: the transition table and
//! the facts about phases and order lines that follow from the reductions.

use crate::control::action::{after, apply, ActionView, ReducerErrorView};
use crate::control::menu::MenuItemView;
use crate::control::state::{initial_state, lines_of, MachineState, OrderLineView, StateView};
use vstd::prelude::*;

verus! {

/// The transition table: the phase that an action leads to from a phase, or
/// `None` where the action does not start from that phase.
pub open spec fn table(action: ActionView, from: MachineState) -> Option<MachineState> {
    match action {
        ActionView::StartOrder => if from == MachineState::Idle {
            Some(MachineState::TakeOrders)
        } else {
            None
        },
        ActionView::AddItem { .. } => if from == MachineState::TakeOrders {
            Some(MachineState::TakeOrders)
        } else {
            None
        },
        ActionView::Finalize => if from == MachineState::TakeOrders {
            Some(MachineState::Ordered)
        } else {
            None
        },
        ActionView::Cancel { user: Some(_) } => if from == MachineState::TakeOrders {
            Some(MachineState::TakeOrders)
        } else {
            None
        },
        ActionView::Cancel { user: None } => if from == MachineState::TakeOrders {
            Some(MachineState::Idle)
        } else {
            None
        },
        ActionView::Arrived => if from == MachineState::Ordered {
            Some(MachineState::Idle)
        } else {
            None
        },
        ActionView::Help => Some(from),
    }
}

/// The session after each of the actions has been reduced in turn, the first
/// one first; `None` if one of them is refused.
pub open spec fn reduce_all(actions: Seq<ActionView>, state: StateView) -> Option<StateView>
    decreases actions.len(),
{
    if actions.len() == 0 {
        Some(state)
    } else {
        match reduce_all(actions.drop_last(), state) {
            Some(before) => match apply(actions.last(), before) {
                Ok(next) => Some(next),
                Err(_) => None,
            },
            None => None,
        }
    }
}

/// The phase that the table leads to along the actions, the first one first;
/// `None` if the table has no entry for one of them.
pub open spec fn follow_table(actions: Seq<ActionView>, from: MachineState) -> Option<MachineState>
    decreases actions.len(),
{
    if actions.len() == 0 {
        Some(from)
    } else {
        match follow_table(actions.drop_last(), from) {
            Some(before) => table(actions.last(), before),
            None => None,
        }
    }
}

/// The session after the store has handled the actions one after the other,
/// the first one first.
pub open spec fn after_all(actions: Seq<ActionView>, state: StateView) -> StateView
    decreases actions.len(),
{
    if actions.len() == 0 {
        state
    } else {
        after(actions.last(), after_all(actions.drop_last(), state))
    }
}

/// A finalized round has order lines.
pub open spec fn ordered_has_orders(state: StateView) -> bool {
    state.machine_state == MachineState::Ordered ==> state.orders != Map::<
        Seq<char>,
        Seq<OrderLineView>,
    >::empty()
}

/// An idle session has no order lines.
pub open spec fn idle_is_empty(state: StateView) -> bool {
    state.machine_state == MachineState::Idle ==> state.orders == Map::<
        Seq<char>,
        Seq<OrderLineView>,
    >::empty()
}

/// Every participant of the session has at least one order line, and each
/// order line stands under the participant whom it names.
pub open spec fn lines_belong(state: StateView) -> bool {
    forall|name: Seq<char>| #[trigger]
        state.orders.dom().contains(name) ==> {
            &&& state.orders[name].len() > 0
            &&& forall|i: int|
                0 <= i < state.orders[name].len() ==> (#[trigger] state.orders[name][i]).user
                    == name
        }
}

/// Whether one of the actions reports an arrival.
pub open spec fn has_arrival(actions: Seq<ActionView>) -> bool {
    exists|i: int| 0 <= i < actions.len() && #[trigger] actions[i] is Arrived
}

/// An accepted action moves the phase as the transition table says, and an
/// action for which the table has no entry is refused as an invalid
/// transition.
pub proof fn lemma_accepted_action_follows_table(action: ActionView, state: StateView)
    ensures
        apply(action, state) matches Ok(next) ==> table(action, state.machine_state) == Some(
            next.machine_state,
        ),
        table(action, state.machine_state) is None ==> apply(action, state) matches Err(
            ReducerErrorView::InvalidTransition { .. },
        ),
{
}

/// Where every action of a sequence is accepted, the final phase is the one
/// that the transition table leads to along the sequence.
pub proof fn lemma_accepted_sequence_follows_table(actions: Seq<ActionView>, state: StateView)
    ensures
        reduce_all(actions, state) matches Some(last) ==> follow_table(actions, state.machine_state)
            == Some(last.machine_state),
    decreases actions.len(),
{
    if actions.len() > 0 {
        lemma_accepted_sequence_follows_table(actions.drop_last(), state);
        match reduce_all(actions.drop_last(), state) {
            Some(before) => {
                lemma_accepted_action_follows_table(actions.last(), before);
            },
            None => {},
        }
    }
}

/// Adding the same item twice appends two lines: nothing is deduplicated.
pub proof fn lemma_add_item_twice_appends_two_lines(
    user: Seq<char>,
    menu_item: MenuItemView,
    state: StateView,
)
    ensures
        ({
            let add = ActionView::AddItem { user, menu_item };
            let line = OrderLineView { user, menu_item, paid: false };
            apply(add, state) matches Ok(once) ==> {
                &&& apply(add, once) matches Ok(twice)
                &&& twice.machine_state == state.machine_state
                &&& twice.orders == state.orders.insert(
                    user,
                    lines_of(state, user).push(line).push(line),
                )
            }
        }),
{
}

/// A whole round, from opening over one order line and finalizing to the
/// arrival, is accepted at every step and ends idle with the order line still
/// there.
pub proof fn lemma_round_trip_keeps_orders(user: Seq<char>, menu_item: MenuItemView)
    ensures
        reduce_all(
            seq![
                ActionView::StartOrder,
                ActionView::AddItem { user, menu_item },
                ActionView::Finalize,
                ActionView::Arrived,
            ],
            initial_state(),
        ) == Some(
            StateView {
                machine_state: MachineState::Idle,
                orders: Map::<Seq<char>, Seq<OrderLineView>>::empty().insert(
                    user,
                    seq![OrderLineView { user, menu_item, paid: false }],
                ),
            },
        ),
{
    let line = OrderLineView { user, menu_item, paid: false };
    let one = seq![ActionView::StartOrder];
    let two = one.push(ActionView::AddItem { user, menu_item });
    let three = two.push(ActionView::Finalize);
    let four = three.push(ActionView::Arrived);
    let empty = Map::<Seq<char>, Seq<OrderLineView>>::empty();
    let orders = empty.insert(user, seq![line]);
    assert(two.drop_last() =~= one);
    assert(three.drop_last() =~= two);
    assert(four.drop_last() =~= three);
    assert(reduce_all(one.drop_last(), initial_state()) == Some(initial_state()));
    assert(reduce_all(one, initial_state()) == Some(
        StateView { machine_state: MachineState::TakeOrders, orders: empty },
    ));
    assert(reduce_all(two, initial_state()) == Some(
        StateView { machine_state: MachineState::TakeOrders, orders },
    ));
    assert(reduce_all(three, initial_state()) == Some(
        StateView { machine_state: MachineState::Ordered, orders },
    ));
    assert(four =~= seq![
        ActionView::StartOrder,
        ActionView::AddItem { user, menu_item },
        ActionView::Finalize,
        ActionView::Arrived,
    ]);
}

/// An arrival never touches the order lines, and cancelling the whole round
/// leaves the session as it was at the start.
pub proof fn lemma_only_cancelling_the_round_clears(state: StateView)
    ensures
        apply(ActionView::Arrived, state) matches Ok(next) ==> next.orders == state.orders,
        apply(ActionView::Cancel { user: None }, state) matches Ok(next) ==> next
            == initial_state(),
{
}

/// Finalizing checks the phase before the data: outside `TakeOrders` it is
/// an invalid transition whatever the order lines are, and in `TakeOrders`
/// without order lines it is an invalid state.
pub proof fn lemma_finalize_checks_phase_then_data(state: StateView)
    ensures
        state.machine_state != MachineState::TakeOrders ==> apply(
            ActionView::Finalize,
            state,
        ) matches Err(ReducerErrorView::InvalidTransition { .. }),
        state.machine_state == MachineState::TakeOrders && state.orders == Map::<
            Seq<char>,
            Seq<OrderLineView>,
        >::empty() ==> apply(ActionView::Finalize, state) matches Err(
            ReducerErrorView::InvalidState { .. },
        ),
        state.machine_state == MachineState::TakeOrders && state.orders != Map::<
            Seq<char>,
            Seq<OrderLineView>,
        >::empty() ==> apply(ActionView::Finalize, state) is Ok,
{
}

/// Order lines are added and removed only while orders are taken: an action
/// accepted in another phase leaves them as they are.
pub proof fn lemma_orders_change_only_while_taking_orders(action: ActionView, state: StateView)
    ensures
        apply(action, state) matches Ok(next) ==> state.machine_state == MachineState::TakeOrders
            || next.orders == state.orders,
{
}

/// Asking for help is accepted in every phase and changes nothing.
pub proof fn lemma_help_changes_nothing(state: StateView)
    ensures
        apply(ActionView::Help, state) == Ok::<StateView, ReducerErrorView>(state),
        after(ActionView::Help, state) == state,
{
}

/// A refused action changes nothing.
pub proof fn lemma_refused_action_changes_nothing(action: ActionView, state: StateView)
    ensures
        apply(action, state) is Err ==> after(action, state) == state,
{
}

/// The store handles the actions of a queue one by one, each exactly once
/// and in the queue's order; where every one of them is accepted, the session
/// at the end is the one that reducing all of them in turn leads to.
pub proof fn lemma_queue_is_handled_in_order(
    actions: Seq<ActionView>,
    action: ActionView,
    state: StateView,
)
    ensures
        after_all(actions.push(action), state) == after(action, after_all(actions, state)),
        reduce_all(actions, state) matches Some(last) ==> after_all(actions, state) == last,
    decreases actions.len(),
{
    assert(actions.push(action).drop_last() =~= actions);
    if actions.len() > 0 {
        lemma_queue_is_handled_in_order(actions.drop_last(), actions.last(), state);
    }
}

/// Whatever the store handles, every participant keeps at least one order
/// line and every order line stays with the participant whom it names.
pub proof fn lemma_lines_belong_is_kept(action: ActionView, state: StateView)
    requires
        lines_belong(state),
    ensures
        lines_belong(after(action, state)),
{
    let next = after(action, state);
    assert forall|name: Seq<char>| #[trigger] next.orders.dom().contains(name) implies {
        &&& next.orders[name].len() > 0
        &&& forall|i: int|
            0 <= i < next.orders[name].len() ==> (#[trigger] next.orders[name][i]).user == name
    } by {
        if let ActionView::AddItem { user, menu_item } = action {
            if name == user && next != state {
                assert(next.orders[name] == lines_of(state, name).push(
                    OrderLineView { user, menu_item, paid: false },
                ));
            }
        }
    }
}

/// From the start, whatever actions arrive in whatever order, every
/// participant of the session has order lines of their own.
pub proof fn lemma_lines_belong_always(actions: Seq<ActionView>)
    ensures
        lines_belong(after_all(actions, initial_state())),
    decreases actions.len(),
{
    if actions.len() > 0 {
        lemma_lines_belong_always(actions.drop_last());
        lemma_lines_belong_is_kept(actions.last(), after_all(actions.drop_last(), initial_state()));
    }
}

/// Whatever the store handles, a finalized round has order lines afterwards
/// if that held before.
pub proof fn lemma_ordered_has_orders_is_kept(action: ActionView, state: StateView)
    requires
        ordered_has_orders(state),
    ensures
        ordered_has_orders(after(action, state)),
{
}

/// From the start, whatever actions arrive in whatever order, a finalized
/// round has order lines.
pub proof fn lemma_ordered_has_orders_always(actions: Seq<ActionView>)
    ensures
        ordered_has_orders(after_all(actions, initial_state())),
    decreases actions.len(),
{
    if actions.len() > 0 {
        lemma_ordered_has_orders_always(actions.drop_last());
        lemma_ordered_has_orders_is_kept(
            actions.last(),
            after_all(actions.drop_last(), initial_state()),
        );
    }
}

/// Every action but an arrival keeps an idle session free of order lines.
pub proof fn lemma_idle_is_empty_is_kept(action: ActionView, state: StateView)
    requires
        idle_is_empty(state),
        !(action is Arrived),
    ensures
        idle_is_empty(after(action, state)),
{
}

/// From the start, as long as no arrival is among the actions, the session
/// is idle only without order lines.
pub proof fn lemma_idle_is_empty_until_arrival(actions: Seq<ActionView>)
    requires
        !has_arrival(actions),
    ensures
        idle_is_empty(after_all(actions, initial_state())),
    decreases actions.len(),
{
    if actions.len() > 0 {
        let earlier = actions.drop_last();
        assert forall|i: int| 0 <= i < earlier.len() implies !(#[trigger] earlier[i]
            is Arrived) by {}
        lemma_idle_is_empty_until_arrival(earlier);
        lemma_idle_is_empty_is_kept(actions.last(), after_all(earlier, initial_state()));
    }
}

} // verus!
