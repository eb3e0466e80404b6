use crate::text::same_text;
use vstd::prelude::*;
use vstd::string::*;

verus! {

/// The stage of an order. An order passes through the stages in this
/// sequence and never goes back.
#[derive(Debug, Clone, Copy, PartialEq, Eq, Structural)]
pub enum State {
    /// The items of the users are collected.
    CollectingOrderItems,
    /// The order is communicated to the provider.
    PlacingOrder,
    /// The order is on its way.
    InDelivery,
    /// The order has arrived.
    Arrived,
}

/// The name under which a stage is written down.
pub open spec fn state_name(state: State) -> Seq<char> {
    match state {
        State::CollectingOrderItems => "CollectingOrders"@,
        State::PlacingOrder => "PlacingOrders"@,
        State::InDelivery => "InDelivery"@,
        State::Arrived => "Arrived"@,
    }
}

/// The stage that a name stands for, if it is the name of one.
pub open spec fn parse_state(text: Seq<char>) -> Option<State> {
    if text == "CollectingOrders"@ {
        Some(State::CollectingOrderItems)
    } else if text == "PlacingOrders"@ {
        Some(State::PlacingOrder)
    } else if text == "InDelivery"@ {
        Some(State::InDelivery)
    } else if text == "Arrived"@ {
        Some(State::Arrived)
    } else {
        None
    }
}

/// What is said of a text that names no stage.
pub open spec fn not_a_state(text: Seq<char>) -> Seq<char> {
    "'"@ + text + "' is not a state"@
}

impl State {
    /// The stage of the given name. Any other text is refused, with a message
    /// that quotes it.
    pub fn try_from(value: &str) -> (parsed: Result<State, String>)
        ensures
            match parsed {
                Ok(state) => parse_state(value@) == Some(state),
                Err(message) => parse_state(value@) is None && message@ == not_a_state(value@),
            },
    {
        if same_text(value, "CollectingOrders") {
            Ok(State::CollectingOrderItems)
        } else if same_text(value, "PlacingOrders") {
            Ok(State::PlacingOrder)
        } else if same_text(value, "InDelivery") {
            Ok(State::InDelivery)
        } else if same_text(value, "Arrived") {
            Ok(State::Arrived)
        } else {
            let mut message = "'".to_owned();
            message.append(value);
            message.append("' is not a state");
            Err(message)
        }
    }

    /// The name of the stage.
    pub fn name(&self) -> (name: &'static str)
        ensures
            name@ == state_name(*self),
    {
        match self {
            State::CollectingOrderItems => "CollectingOrders",
            State::PlacingOrder => "PlacingOrders",
            State::InDelivery => "InDelivery",
            State::Arrived => "Arrived",
        }
    }

    /// The name of the stage as an owned string.
    pub fn to_string(&self) -> (name: String)
        ensures
            name@ == state_name(*self),
    {
        self.name().to_owned()
    }
}

/// Every stage is found again by its name.
pub proof fn lemma_state_name_round_trip(state: State)
    ensures
        parse_state(state_name(state)) == Some(state),
{
    reveal_strlit("CollectingOrders");
    reveal_strlit("PlacingOrders");
    reveal_strlit("InDelivery");
    reveal_strlit("Arrived");
    assert("CollectingOrders"@.len() == 16);
    assert("PlacingOrders"@.len() == 13);
    assert("InDelivery"@.len() == 10);
    assert("Arrived"@.len() == 7);
}

} // verus!
