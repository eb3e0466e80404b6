//! The actions: every intent that can be submitted to the session, each with
//! the reduction that validates it against the current phase and computes the
//! next state.

pub mod add_item;
pub mod arrived;
pub mod cancel;
pub mod finalize;
pub mod help;
pub mod start_order;

use crate::control::menu::MenuItemView;
use crate::control::state::{State, StateView};
use add_item::AddItem;
use arrived::Arrived;
use cancel::Cancel;
use finalize::Finalize;
use help::Help;
use start_order::StartOrder;
use vstd::prelude::*;

verus! {

/// Why an action was refused.
///
/// `InvalidTransition`: the current phase does not permit the action.
/// `InvalidState`: the phase permits it, but the data does not.
#[derive(Debug, Clone, PartialEq, Eq)]
pub enum ReducerError {
    InvalidTransition { message: String },
    InvalidState { message: String },
}

/// A [`ReducerError`] as a mathematical value.
pub enum ReducerErrorView {
    InvalidTransition { message: Seq<char> },
    InvalidState { message: Seq<char> },
}

impl View for ReducerError {
    type V = ReducerErrorView;

    open spec fn view(&self) -> ReducerErrorView {
        match self {
            ReducerError::InvalidTransition { message } => ReducerErrorView::InvalidTransition {
                message: message@,
            },
            ReducerError::InvalidState { message } => ReducerErrorView::InvalidState {
                message: message@,
            },
        }
    }
}

impl ReducerError {
    /// The text that says why the action was refused.
    pub fn message(&self) -> (text: &str)
        ensures
            text@ == match self@ {
                ReducerErrorView::InvalidTransition { message } => message,
                ReducerErrorView::InvalidState { message } => message,
            },
    {
        match self {
            ReducerError::InvalidTransition { message } => message.as_str(),
            ReducerError::InvalidState { message } => message.as_str(),
        }
    }
}

/// The kind of an action, without the data that the action carries.
#[derive(Debug, Clone, Copy, PartialEq, Eq, Hash, Structural)]
pub enum ActionKind {
    StartOrder,
    AddItem,
    Finalize,
    Cancel,
    Arrived,
    Help,
}

/// An action as a mathematical value.
#[allow(inconsistent_fields)]
pub enum ActionView {
    StartOrder,
    AddItem { user: Seq<char>, menu_item: MenuItemView },
    Finalize,
    Cancel { user: Option<Seq<char>> },
    Arrived,
    Help,
}

impl ActionView {
    pub open spec fn kind(self) -> ActionKind {
        match self {
            ActionView::StartOrder => ActionKind::StartOrder,
            ActionView::AddItem { .. } => ActionKind::AddItem,
            ActionView::Finalize => ActionKind::Finalize,
            ActionView::Cancel { .. } => ActionKind::Cancel,
            ActionView::Arrived => ActionKind::Arrived,
            ActionView::Help => ActionKind::Help,
        }
    }
}

/// What an action makes of a session: the next session, or the reason why the
/// action is refused. This is the whole transition relation.
pub open spec fn apply(action: ActionView, state: StateView) -> Result<
    StateView,
    ReducerErrorView,
> {
    match action {
        ActionView::StartOrder => start_order::start_order(state),
        ActionView::AddItem { user, menu_item } => add_item::add_item(user, menu_item, state),
        ActionView::Finalize => finalize::finalize(state),
        ActionView::Cancel { user } => cancel::cancel(user, state),
        ActionView::Arrived => arrived::arrived(state),
        ActionView::Help => help::help(state),
    }
}

/// The session after the store has handled an action: the reduction's result
/// where the action is accepted, the session as it was where it is refused.
pub open spec fn after(action: ActionView, state: StateView) -> StateView {
    match apply(action, state) {
        Ok(next) => next,
        Err(_) => state,
    }
}

/// The result of a reduction as a mathematical value.
pub open spec fn outcome_view(outcome: Result<State, ReducerError>) -> Result<
    StateView,
    ReducerErrorView,
> {
    match outcome {
        Ok(state) => Ok(state@),
        Err(error) => Err(error@),
    }
}

/// An intent that can be reduced against a session.
///
/// A reduction takes a snapshot and hands back either the next session or an
/// error; it changes nothing else.
pub trait Reducer {
    /// The action that this value stands for.
    spec fn intent(&self) -> ActionView;

    /// The next session, or the reason why the action is refused.
    fn reduce(&self, state: State) -> (outcome: Result<State, ReducerError>)
        ensures
            outcome_view(outcome) == apply(self.intent(), state@),
    ;
}

/// Every intent that can be submitted.
#[derive(Debug, Clone, PartialEq, Eq)]
pub enum Action {
    StartOrder(StartOrder),
    AddItem(AddItem),
    Finalize(Finalize),
    Cancel(Cancel),
    Arrived(Arrived),
    Help(Help),
}

impl View for Action {
    type V = ActionView;

    open spec fn view(&self) -> ActionView {
        match self {
            Action::StartOrder(action) => action.intent(),
            Action::AddItem(action) => action.intent(),
            Action::Finalize(action) => action.intent(),
            Action::Cancel(action) => action.intent(),
            Action::Arrived(action) => action.intent(),
            Action::Help(action) => action.intent(),
        }
    }
}

impl Action {
    /// The kind of this action.
    pub fn kind(&self) -> (kind: ActionKind)
        ensures
            kind == self@.kind(),
    {
        match self {
            Action::StartOrder(_) => ActionKind::StartOrder,
            Action::AddItem(_) => ActionKind::AddItem,
            Action::Finalize(_) => ActionKind::Finalize,
            Action::Cancel(_) => ActionKind::Cancel,
            Action::Arrived(_) => ActionKind::Arrived,
            Action::Help(_) => ActionKind::Help,
        }
    }
}

impl From<StartOrder> for Action {
    fn from(action: StartOrder) -> (wrapped: Action) {
        Action::StartOrder(action)
    }
}

impl vstd::std_specs::convert::FromSpecImpl<StartOrder> for Action {
    open spec fn obeys_from_spec() -> bool {
        true
    }

    open spec fn from_spec(action: StartOrder) -> Action {
        Action::StartOrder(action)
    }
}

impl From<AddItem> for Action {
    fn from(action: AddItem) -> (wrapped: Action) {
        Action::AddItem(action)
    }
}

impl vstd::std_specs::convert::FromSpecImpl<AddItem> for Action {
    open spec fn obeys_from_spec() -> bool {
        true
    }

    open spec fn from_spec(action: AddItem) -> Action {
        Action::AddItem(action)
    }
}

impl From<Finalize> for Action {
    fn from(action: Finalize) -> (wrapped: Action) {
        Action::Finalize(action)
    }
}

impl vstd::std_specs::convert::FromSpecImpl<Finalize> for Action {
    open spec fn obeys_from_spec() -> bool {
        true
    }

    open spec fn from_spec(action: Finalize) -> Action {
        Action::Finalize(action)
    }
}

impl From<Cancel> for Action {
    fn from(action: Cancel) -> (wrapped: Action) {
        Action::Cancel(action)
    }
}

impl vstd::std_specs::convert::FromSpecImpl<Cancel> for Action {
    open spec fn obeys_from_spec() -> bool {
        true
    }

    open spec fn from_spec(action: Cancel) -> Action {
        Action::Cancel(action)
    }
}

impl From<Arrived> for Action {
    fn from(action: Arrived) -> (wrapped: Action) {
        Action::Arrived(action)
    }
}

impl vstd::std_specs::convert::FromSpecImpl<Arrived> for Action {
    open spec fn obeys_from_spec() -> bool {
        true
    }

    open spec fn from_spec(action: Arrived) -> Action {
        Action::Arrived(action)
    }
}

impl From<Help> for Action {
    fn from(action: Help) -> (wrapped: Action) {
        Action::Help(action)
    }
}

impl vstd::std_specs::convert::FromSpecImpl<Help> for Action {
    open spec fn obeys_from_spec() -> bool {
        true
    }

    open spec fn from_spec(action: Help) -> Action {
        Action::Help(action)
    }
}

impl Reducer for Action {
    open spec fn intent(&self) -> ActionView {
        self@
    }

    fn reduce(&self, state: State) -> (outcome: Result<State, ReducerError>) {
        match self {
            Action::StartOrder(action) => action.reduce(state),
            Action::AddItem(action) => action.reduce(state),
            Action::Finalize(action) => action.reduce(state),
            Action::Cancel(action) => action.reduce(state),
            Action::Arrived(action) => action.reduce(state),
            Action::Help(action) => action.reduce(state),
        }
    }
}

} // verus!
