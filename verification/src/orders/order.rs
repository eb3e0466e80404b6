use crate::control::menu::{MenuItem, MenuItemView};
use crate::control::user::User;
use crate::orders::state::{state_name, State};
use crate::text::{decimal, decimal_text};
use vstd::prelude::*;
use vstd::string::*;

verus! {

/// One item of an order: who wants what, and whether it is paid.
#[derive(Debug, Clone, PartialEq, Eq)]
pub struct OrderItem {
    pub id: i64,
    pub user: User,
    pub item: MenuItem,
    pub paid: bool,
}

/// What an [`OrderItem`] holds, as mathematical values.
pub struct OrderItemView {
    pub id: int,
    pub user: Seq<char>,
    pub item: MenuItemView,
    pub paid: bool,
}

impl View for OrderItem {
    type V = OrderItemView;

    open spec fn view(&self) -> OrderItemView {
        OrderItemView { id: self.id as int, user: self.user@, item: self.item@, paid: self.paid }
    }
}

/// The views of a vector of order items, in the vector's order.
pub open spec fn items_view(items: Seq<OrderItem>) -> Seq<OrderItemView> {
    items.map_values(|item: OrderItem| item@)
}

/// A point in time: the whole seconds since the Unix epoch, and the
/// nanoseconds that have passed since the last whole second.
#[derive(Debug, Clone, Copy, PartialEq, Eq, Structural)]
pub struct Timestamp {
    pub seconds: i64,
    pub nanos: u32,
}

/// An order, with its own way from collecting items to the arrival.
///
/// An order stands for itself: the session of the `control` module does not
/// hold orders, and the rules of the session do not bind an order.
#[derive(Debug)]
pub struct Order {
    id: i64,
    /// When the order is finalized by itself.
    order_deadline: Option<Timestamp>,
    /// When the order is expected to arrive.
    eta: Option<Timestamp>,
    items: Vec<OrderItem>,
    /// The person who is responsible for the order.
    initiator: User,
    /// The person who paid for the order.
    sugar_person: Option<User>,
    state: State,
}

/// What an [`Order`] holds, as mathematical values.
pub struct OrderView {
    pub id: int,
    pub order_deadline: Option<Timestamp>,
    pub eta: Option<Timestamp>,
    pub items: Seq<OrderItemView>,
    pub initiator: Seq<char>,
    pub sugar_person: Option<Seq<char>>,
    pub state: State,
}

impl OrderView {
    /// The same order with other items.
    pub open spec fn with_items(self, items: Seq<OrderItemView>) -> OrderView {
        OrderView {
            id: self.id,
            order_deadline: self.order_deadline,
            eta: self.eta,
            items,
            initiator: self.initiator,
            sugar_person: self.sugar_person,
            state: self.state,
        }
    }

    /// The same order at another stage.
    pub open spec fn with_state(self, state: State) -> OrderView {
        OrderView {
            id: self.id,
            order_deadline: self.order_deadline,
            eta: self.eta,
            items: self.items,
            initiator: self.initiator,
            sugar_person: self.sugar_person,
            state,
        }
    }

    /// The same order with another estimate of its arrival.
    pub open spec fn with_eta(self, eta: Option<Timestamp>) -> OrderView {
        OrderView {
            id: self.id,
            order_deadline: self.order_deadline,
            eta,
            items: self.items,
            initiator: self.initiator,
            sugar_person: self.sugar_person,
            state: self.state,
        }
    }
}

impl View for Order {
    type V = OrderView;

    closed spec fn view(&self) -> OrderView {
        OrderView {
            id: self.id as int,
            order_deadline: self.order_deadline,
            eta: self.eta,
            items: items_view(self.items@),
            initiator: self.initiator@,
            sugar_person: match self.sugar_person {
                Some(user) => Some(user@),
                None => None,
            },
            state: self.state,
        }
    }
}

/// The items without those of the given id, in their old order.
pub open spec fn without_id(items: Seq<OrderItemView>, id: int) -> Seq<OrderItemView>
    decreases items.len(),
{
    if items.len() == 0 {
        items
    } else if items.last().id == id {
        without_id(items.drop_last(), id)
    } else {
        without_id(items.drop_last(), id).push(items.last())
    }
}

/// Whether one of the items has the given id.
pub open spec fn has_id(items: Seq<OrderItemView>, id: int) -> bool {
    exists|i: int| 0 <= i < items.len() && (#[trigger] items[i]).id == id
}

/// Adding an item: while items are collected the item goes to the end;
/// at any later stage it is refused.
pub open spec fn add_item(order: OrderView, item: OrderItemView) -> Result<OrderView, Seq<char>> {
    if order.state == State::CollectingOrderItems {
        Ok(order.with_items(order.items.push(item)))
    } else {
        Err("cannot add items to order in state "@ + state_name(order.state))
    }
}

/// Removing the items of an id: while items are collected every item of that
/// id leaves, and it is an error if there is none; at any later stage it is
/// refused.
pub open spec fn remove_item(order: OrderView, id: int) -> Result<OrderView, Seq<char>> {
    if order.state != State::CollectingOrderItems {
        Err("cannot remove items from order in state "@ + state_name(order.state))
    } else if !has_id(order.items, id) {
        Err("item with id "@ + decimal_text(id) + " was not in the order"@)
    } else {
        Ok(order.with_items(without_id(order.items, id)))
    }
}

/// Finalizing: from collecting items to placing the order; refused at any
/// later stage. The items play no part: an order without items is finalized
/// like any other.
pub open spec fn finalize_order(order: OrderView) -> Result<OrderView, Seq<char>> {
    match order.state {
        State::CollectingOrderItems => Ok(order.with_state(State::PlacingOrder)),
        State::PlacingOrder => Err("that isn't necessary, it's already locked in"@),
        State::InDelivery => Err("the cook's already on it, and guess whose order is missing"@),
        State::Arrived => Err("too bad, the others are already eating or maybe even done"@),
    }
}

/// Sending on its way: from placing the order to the delivery, with the
/// estimate of the arrival; refused at any other stage.
pub open spec fn in_delivery(order: OrderView, eta: Option<Timestamp>) -> Result<
    OrderView,
    Seq<char>,
> {
    match order.state {
        State::CollectingOrderItems => Err(
            "I hope you didn't really order anything, we're still collecting"@,
        ),
        State::PlacingOrder => Ok(order.with_state(State::InDelivery).with_eta(eta)),
        State::InDelivery => Err("that isn't necessary, the cook's already on it"@),
        State::Arrived => Err("too bad, the others are already eating or maybe even done"@),
    }
}

/// Arriving: from the delivery to the arrival; refused at any other stage.
pub open spec fn arrived(order: OrderView) -> Result<OrderView, Seq<char>> {
    match order.state {
        State::CollectingOrderItems => Err(
            "what arrived? we wouldn't even know, we haven't decided yet"@,
        ),
        State::PlacingOrder => Err(
            "did "@ + order.initiator
                + " conjoure it from nothing or how did it arrive before even ordering?"@,
        ),
        State::InDelivery => Ok(order.with_state(State::Arrived)),
        State::Arrived => Err(
            "you probably stole someone else's order, because this one already arrived"@,
        ),
    }
}

/// Whether a step on an order came out as it should: on success the order
/// is the expected one, on failure the message is the expected one and the
/// order is as it was.
pub open spec fn stepped(
    before: OrderView,
    after: OrderView,
    outcome: Result<(), String>,
    expected: Result<OrderView, Seq<char>>,
) -> bool {
    match outcome {
        Ok(_) => expected == Ok::<OrderView, Seq<char>>(after),
        Err(message) => expected == Err::<OrderView, Seq<char>>(message@) && after == before,
    }
}

/// The place of a stage on an order's way.
pub open spec fn stage(state: State) -> int {
    match state {
        State::CollectingOrderItems => 0,
        State::PlacingOrder => 1,
        State::InDelivery => 2,
        State::Arrived => 3,
    }
}

/// An order never goes back: finalizing, sending on its way and arriving
/// each move it to the next stage, and only from the stage before.
pub proof fn lemma_order_moves_one_stage(order: OrderView, eta: Option<Timestamp>)
    ensures
        finalize_order(order) matches Ok(next) ==> stage(order.state) == 0 && stage(next.state)
            == 1,
        in_delivery(order, eta) matches Ok(next) ==> stage(order.state) == 1 && stage(next.state)
            == 2,
        arrived(order) matches Ok(next) ==> stage(order.state) == 2 && stage(next.state) == 3,
        finalize_order(order) is Ok <==> order.state == State::CollectingOrderItems,
        in_delivery(order, eta) is Ok <==> order.state == State::PlacingOrder,
        arrived(order) is Ok <==> order.state == State::InDelivery,
{
}

/// The items of an order change only while they are collected, and only by
/// adding and removing: the other steps leave them as they are.
pub proof fn lemma_items_change_only_while_collecting(
    order: OrderView,
    item: OrderItemView,
    id: int,
    eta: Option<Timestamp>,
)
    ensures
        add_item(order, item) is Ok <==> order.state == State::CollectingOrderItems,
        remove_item(order, id) is Ok ==> order.state == State::CollectingOrderItems,
        add_item(order, item) matches Ok(next) ==> next.state == order.state,
        remove_item(order, id) matches Ok(next) ==> next.state == order.state && !has_id(
            next.items,
            id,
        ),
        finalize_order(order) matches Ok(next) ==> next.items == order.items,
        in_delivery(order, eta) matches Ok(next) ==> next.items == order.items,
        arrived(order) matches Ok(next) ==> next.items == order.items,
{
    lemma_without_id_has_none(order.items, id);
}

/// What is left after the items of an id are taken out holds no item of that
/// id, and every item that is left was there before.
pub proof fn lemma_without_id_has_none(items: Seq<OrderItemView>, id: int)
    ensures
        !has_id(without_id(items, id), id),
        without_id(items, id).len() <= items.len(),
        forall|i: int|
            0 <= i < without_id(items, id).len() ==> items.contains(
                #[trigger] without_id(items, id)[i],
            ),
    decreases items.len(),
{
    if items.len() > 0 {
        let front = items.drop_last();
        lemma_without_id_has_none(front, id);
        let kept = without_id(items, id);
        assert forall|i: int| 0 <= i < kept.len() implies items.contains(#[trigger] kept[i])
            && kept[i].id != id by {
            if i < without_id(front, id).len() {
                let at = front.index_of(without_id(front, id)[i]);
                assert(items[at] == front[at]);
            }
        }
    }
}

/// Where no item has the id, taking the items of the id out changes
/// nothing.
proof fn lemma_without_id_keeps_the_rest(items: Seq<OrderItemView>, id: int)
    ensures
        !has_id(items, id) ==> without_id(items, id) == items,
    decreases items.len(),
{
    if items.len() > 0 && !has_id(items, id) {
        let front = items.drop_last();
        assert forall|i: int| 0 <= i < front.len() implies (#[trigger] front[i]).id != id by {}
        lemma_without_id_keeps_the_rest(front, id);
    }
}

/// An item at the end has the id, or the id is among the items before it,
/// or it is not there at all.
proof fn lemma_has_id_push(items: Seq<OrderItemView>, item: OrderItemView, id: int)
    ensures
        has_id(items.push(item), id) == (has_id(items, id) || item.id == id),
{
    let longer = items.push(item);
    if has_id(items, id) {
        let at = choose|at: int| 0 <= at < items.len() && (#[trigger] items[at]).id == id;
        assert(longer[at].id == id);
    }
    if item.id == id {
        assert(longer[items.len() as int].id == id);
    }
    if has_id(longer, id) && item.id != id {
        let at = choose|at: int| 0 <= at < longer.len() && (#[trigger] longer[at]).id == id;
        assert(items[at].id == id);
    }
}

/// Items of the given id do not count: taking them out of the front part
/// and keeping the rest is the same as taking them out of all.
proof fn lemma_without_id_push(items: Seq<OrderItemView>, item: OrderItemView, id: int)
    ensures
        without_id(items.push(item), id) == if item.id == id {
            without_id(items, id)
        } else {
            without_id(items, id).push(item)
        },
{
    assert(items.push(item).drop_last() =~= items);
}

impl Order {
    /// A new order without items, at the stage of collecting them.
    pub fn new(id: i64, order_deadline: Option<Timestamp>, initiator: User) -> (order: Order)
        ensures
            order@ == (OrderView {
                id: id as int,
                order_deadline,
                eta: None,
                items: Seq::empty(),
                initiator: initiator@,
                sugar_person: None,
                state: State::CollectingOrderItems,
            }),
    {
        let order = Order {
            id,
            order_deadline,
            eta: None,
            items: Vec::new(),
            initiator,
            sugar_person: None,
            state: State::CollectingOrderItems,
        };
        assert(items_view(order.items@) =~= Seq::empty());
        order
    }

    /// The id of the order.
    pub fn id(&self) -> (id: i64)
        ensures
            id == self@.id,
    {
        self.id
    }

    /// When the order is finalized by itself, if a deadline is set.
    pub fn order_deadline(&self) -> (at: Option<Timestamp>)
        ensures
            at == self@.order_deadline,
    {
        self.order_deadline
    }

    /// When the order is expected to arrive, if that is known.
    pub fn eta(&self) -> (at: Option<Timestamp>)
        ensures
            at == self@.eta,
    {
        self.eta
    }

    /// The items of the order, in the order in which they were added.
    pub fn items(&self) -> (items: &Vec<OrderItem>)
        ensures
            items_view(items@) == self@.items,
    {
        &self.items
    }

    /// The person who is responsible for the order.
    pub fn initiator(&self) -> (user: &User)
        ensures
            user@ == self@.initiator,
    {
        &self.initiator
    }

    /// The person who paid for the order, if somebody did.
    pub fn sugar_person(&self) -> (user: Option<&User>)
        ensures
            match user {
                Some(user) => self@.sugar_person == Some(user@),
                None => self@.sugar_person is None,
            },
    {
        match &self.sugar_person {
            Some(user) => Some(user),
            None => None,
        }
    }

    /// The stage of the order.
    pub fn state(&self) -> (state: State)
        ensures
            state == self@.state,
    {
        self.state
    }

    /// Adds an item at the end, while items are collected.
    pub fn add_item(&mut self, it: OrderItem) -> (outcome: Result<(), String>)
        ensures
            stepped(old(self)@, final(self)@, outcome, add_item(old(self)@, it@)),
    {
        if self.state != State::CollectingOrderItems {
            let mut message = "cannot add items to order in state ".to_owned();
            message.append(self.state.name());
            return Err(message);
        }
        let ghost item = it@;
        self.items.push(it);
        assert(items_view(self.items@) =~= old(self)@.items.push(item));
        Ok(())
    }

    /// Removes every item of the given id, while items are collected. It is
    /// an error if there is none.
    pub fn remove_item(&mut self, id: i64) -> (outcome: Result<(), String>)
        ensures
            stepped(old(self)@, final(self)@, outcome, remove_item(old(self)@, id as int)),
    {
        if self.state != State::CollectingOrderItems {
            let mut message = "cannot remove items from order in state ".to_owned();
            message.append(self.state.name());
            return Err(message);
        }
        let ghost before = items_view(self.items@);
        let mut items: Vec<OrderItem> = Vec::new();
        core::mem::swap(&mut self.items, &mut items);
        let mut removed = false;
        for item in iter: items.into_iter()
            invariant
                items_view(iter.seq()) == before,
                items_view(self.items@) == without_id(
                    before.subrange(0, iter.index() as int),
                    id as int,
                ),
                removed == has_id(before.subrange(0, iter.index() as int), id as int),
                self.id == old(self).id,
                self.order_deadline == old(self).order_deadline,
                self.eta == old(self).eta,
                self.initiator == old(self).initiator,
                self.sugar_person == old(self).sugar_person,
                self.state == old(self).state,
        {
            proof {
                let front = before.subrange(0, iter.index() as int);
                assert(before.subrange(0, iter.index() + 1) =~= front.push(item@));
                lemma_without_id_push(front, item@, id as int);
                lemma_has_id_push(front, item@, id as int);
            }
            if item.id == id {
                removed = true;
            } else {
                self.items.push(item);
            }
        }
        proof {
            assert(before.subrange(0, before.len() as int) =~= before);
            lemma_without_id_keeps_the_rest(before, id as int);
        }
        if !removed {
            let mut message = "item with id ".to_owned();
            let shown = decimal(id);
            message.append(shown.as_str());
            message.append(" was not in the order");
            return Err(message);
        }
        Ok(())
    }

    /// Closes the collection of items: the order is placed next. The items
    /// are not looked at, so an order without items can be closed too.
    pub fn finalize_order(&mut self) -> (outcome: Result<(), String>)
        ensures
            stepped(old(self)@, final(self)@, outcome, finalize_order(old(self)@)),
    {
        match self.state {
            State::CollectingOrderItems => {},
            State::PlacingOrder => {
                return Err("that isn't necessary, it's already locked in".to_owned());
            },
            State::InDelivery => {
                return Err(
                    "the cook's already on it, and guess whose order is missing".to_owned(),
                );
            },
            State::Arrived => {
                return Err("too bad, the others are already eating or maybe even done".to_owned());
            },
        }
        self.state = State::PlacingOrder;
        Ok(())
    }

    /// Marks the placed order as being on its way, with the estimate of its
    /// arrival.
    pub fn in_delivery(&mut self, eta: Option<Timestamp>) -> (outcome: Result<(), String>)
        ensures
            stepped(old(self)@, final(self)@, outcome, in_delivery(old(self)@, eta)),
    {
        match self.state {
            State::CollectingOrderItems => {
                return Err(
                    "I hope you didn't really order anything, we're still collecting".to_owned(),
                );
            },
            State::PlacingOrder => {},
            State::InDelivery => {
                return Err("that isn't necessary, the cook's already on it".to_owned());
            },
            State::Arrived => {
                return Err("too bad, the others are already eating or maybe even done".to_owned());
            },
        }
        self.state = State::InDelivery;
        self.eta = eta;
        Ok(())
    }

    /// Marks the order that is on its way as arrived.
    pub fn arrived(&mut self) -> (outcome: Result<(), String>)
        ensures
            stepped(old(self)@, final(self)@, outcome, arrived(old(self)@)),
    {
        match self.state {
            State::CollectingOrderItems => {
                return Err(
                    "what arrived? we wouldn't even know, we haven't decided yet".to_owned(),
                );
            },
            State::PlacingOrder => {
                let mut message = "did ".to_owned();
                message.append(self.initiator.name());
                message.append(
                    " conjoure it from nothing or how did it arrive before even ordering?",
                );
                return Err(message);
            },
            State::InDelivery => {},
            State::Arrived => {
                return Err(
                    "you probably stole someone else's order, because this one already arrived"
                        .to_owned(),
                );
            },
        }
        self.state = State::Arrived;
        Ok(())
    }
}

} // verus!
