use group_order::control::menu::MenuItem;
use group_order::control::user::User;
use group_order::orders::order::{Order, OrderItem, Timestamp};
use group_order::orders::state::State;

fn user(name: &str) -> User {
    User::new(name.to_string())
}

fn item(id: i64, who: &str, what: &str) -> OrderItem {
    OrderItem {
        id,
        user: user(who),
        item: MenuItem {
            id: 7,
            short_name: "X".to_string(),
            name: what.to_string(),
            price: 500,
        },
        paid: false,
    }
}

fn at(seconds: i64, nanos: u32) -> Timestamp {
    Timestamp { seconds, nanos }
}

fn deadline() -> Timestamp {
    at(1_700_000_000, 0)
}

fn estimate() -> Timestamp {
    at(1_700_003_600, 250_000_000)
}

fn collecting() -> Order {
    Order::new(1, Some(deadline()), user("dana"))
}

fn placing() -> Order {
    let mut order = collecting();
    order.add_item(item(1, "alice", "pizza")).unwrap();
    order.finalize_order().unwrap();
    order
}

fn delivering() -> Order {
    let mut order = placing();
    order.in_delivery(Some(estimate())).unwrap();
    order
}

fn arrived() -> Order {
    let mut order = delivering();
    order.arrived().unwrap();
    order
}

fn ids(order: &Order) -> Vec<i64> {
    order.items().iter().map(|item| item.id).collect()
}

#[test]
fn a_new_order_collects_items() {
    let order = collecting();
    assert_eq!(order.id(), 1);
    assert_eq!(order.order_deadline(), Some(deadline()));
    assert_eq!(order.eta(), None);
    assert!(order.items().is_empty());
    assert_eq!(order.initiator(), &user("dana"));
    assert!(order.sugar_person().is_none());
    assert_eq!(order.state(), State::CollectingOrderItems);
}

#[test]
fn a_new_order_may_have_no_deadline() {
    let order = Order::new(-3, None, user("dana"));
    assert_eq!(order.id(), -3);
    assert_eq!(order.order_deadline(), None);
}

#[test]
fn items_are_added_at_the_end() {
    let mut order = collecting();
    assert_eq!(order.add_item(item(1, "alice", "pizza")), Ok(()));
    assert_eq!(order.add_item(item(2, "bob", "salad")), Ok(()));
    assert_eq!(order.add_item(item(1, "alice", "pizza")), Ok(()));
    assert_eq!(ids(&order), vec![1, 2, 1]);
    assert_eq!(order.items()[1], item(2, "bob", "salad"));
    assert_eq!(order.state(), State::CollectingOrderItems);
}

#[test]
fn items_are_refused_after_collecting() {
    let mut order = placing();
    assert_eq!(
        order.add_item(item(2, "bob", "salad")),
        Err("cannot add items to order in state PlacingOrders".to_string())
    );
    assert_eq!(ids(&order), vec![1]);
    let mut order = delivering();
    assert_eq!(
        order.add_item(item(2, "bob", "salad")),
        Err("cannot add items to order in state InDelivery".to_string())
    );
    let mut order = arrived();
    assert_eq!(
        order.add_item(item(2, "bob", "salad")),
        Err("cannot add items to order in state Arrived".to_string())
    );
    assert_eq!(ids(&order), vec![1]);
}

#[test]
fn remove_item_takes_out_every_item_of_the_id() {
    let mut order = collecting();
    for id in [4, 1, 4, 2, 3, 4] {
        order.add_item(item(id, "alice", "pizza")).unwrap();
    }
    assert_eq!(order.remove_item(4), Ok(()));
    assert_eq!(ids(&order), vec![1, 2, 3]);
    assert_eq!(order.remove_item(2), Ok(()));
    assert_eq!(ids(&order), vec![1, 3]);
    assert_eq!(order.remove_item(1), Ok(()));
    assert_eq!(order.remove_item(3), Ok(()));
    assert!(order.items().is_empty());
    assert_eq!(order.state(), State::CollectingOrderItems);
}

#[test]
fn remove_item_of_an_unknown_id_is_an_error() {
    let mut order = collecting();
    order.add_item(item(1, "alice", "pizza")).unwrap();
    assert_eq!(order.remove_item(42), Err("item with id 42 was not in the order".to_string()));
    assert_eq!(order.remove_item(-7), Err("item with id -7 was not in the order".to_string()));
    assert_eq!(order.remove_item(0), Err("item with id 0 was not in the order".to_string()));
    assert_eq!(
        order.remove_item(i64::MIN),
        Err("item with id -9223372036854775808 was not in the order".to_string())
    );
    assert_eq!(ids(&order), vec![1]);
}

#[test]
fn remove_item_from_an_empty_order_is_an_error() {
    let mut order = collecting();
    assert_eq!(order.remove_item(1), Err("item with id 1 was not in the order".to_string()));
}

#[test]
fn remove_item_is_refused_after_collecting() {
    let mut order = placing();
    assert_eq!(
        order.remove_item(1),
        Err("cannot remove items from order in state PlacingOrders".to_string())
    );
    assert_eq!(ids(&order), vec![1]);
    let mut order = delivering();
    assert_eq!(
        order.remove_item(1),
        Err("cannot remove items from order in state InDelivery".to_string())
    );
    let mut order = arrived();
    assert_eq!(
        order.remove_item(1),
        Err("cannot remove items from order in state Arrived".to_string())
    );
}

#[test]
fn finalize_order_moves_to_placing() {
    let mut order = collecting();
    assert_eq!(order.finalize_order(), Ok(()));
    assert_eq!(order.state(), State::PlacingOrder);
    assert!(order.items().is_empty());
}

#[test]
fn finalize_order_is_refused_at_later_stages() {
    let mut order = placing();
    assert_eq!(
        order.finalize_order(),
        Err("that isn't necessary, it's already locked in".to_string())
    );
    assert_eq!(order.state(), State::PlacingOrder);
    let mut order = delivering();
    assert_eq!(
        order.finalize_order(),
        Err("the cook's already on it, and guess whose order is missing".to_string())
    );
    assert_eq!(order.state(), State::InDelivery);
    let mut order = arrived();
    assert_eq!(
        order.finalize_order(),
        Err("too bad, the others are already eating or maybe even done".to_string())
    );
    assert_eq!(order.state(), State::Arrived);
}

#[test]
fn in_delivery_sets_the_estimate() {
    let mut order = placing();
    assert_eq!(order.in_delivery(Some(estimate())), Ok(()));
    assert_eq!(order.state(), State::InDelivery);
    assert_eq!(order.eta(), Some(estimate()));
    assert_eq!(order.order_deadline(), Some(deadline()));
    let mut order = placing();
    assert_eq!(order.in_delivery(None), Ok(()));
    assert_eq!(order.state(), State::InDelivery);
    assert_eq!(order.eta(), None);
}

#[test]
fn in_delivery_is_refused_at_other_stages() {
    let mut order = collecting();
    assert_eq!(
        order.in_delivery(Some(at(5, 0))),
        Err("I hope you didn't really order anything, we're still collecting".to_string())
    );
    assert_eq!(order.eta(), None);
    assert_eq!(order.state(), State::CollectingOrderItems);
    let mut order = delivering();
    assert_eq!(
        order.in_delivery(Some(at(5, 0))),
        Err("that isn't necessary, the cook's already on it".to_string())
    );
    assert_eq!(order.eta(), Some(estimate()));
    let mut order = arrived();
    assert_eq!(
        order.in_delivery(Some(at(5, 0))),
        Err("too bad, the others are already eating or maybe even done".to_string())
    );
    assert_eq!(order.eta(), Some(estimate()));
}

#[test]
fn arrived_ends_the_delivery() {
    let mut order = delivering();
    assert_eq!(order.arrived(), Ok(()));
    assert_eq!(order.state(), State::Arrived);
    assert_eq!(ids(&order), vec![1]);
    assert_eq!(order.eta(), Some(estimate()));
}

#[test]
fn arrived_is_refused_at_other_stages() {
    let mut order = collecting();
    assert_eq!(
        order.arrived(),
        Err("what arrived? we wouldn't even know, we haven't decided yet".to_string())
    );
    assert_eq!(order.state(), State::CollectingOrderItems);
    let mut order = placing();
    assert_eq!(
        order.arrived(),
        Err("did dana conjoure it from nothing or how did it arrive before even ordering?"
            .to_string())
    );
    assert_eq!(order.state(), State::PlacingOrder);
    let mut order = arrived();
    assert_eq!(
        order.arrived(),
        Err("you probably stole someone else's order, because this one already arrived"
            .to_string())
    );
    assert_eq!(order.state(), State::Arrived);
}

#[test]
fn stages_are_found_by_their_names() {
    assert_eq!(State::try_from("CollectingOrders"), Ok(State::CollectingOrderItems));
    assert_eq!(State::try_from("PlacingOrders"), Ok(State::PlacingOrder));
    assert_eq!(State::try_from("InDelivery"), Ok(State::InDelivery));
    assert_eq!(State::try_from("Arrived"), Ok(State::Arrived));
}

#[test]
fn other_texts_are_no_stages() {
    assert_eq!(State::try_from("Idle"), Err("'Idle' is not a state".to_string()));
    assert_eq!(State::try_from(""), Err("'' is not a state".to_string()));
    assert_eq!(State::try_from("arrived"), Err("'arrived' is not a state".to_string()));
    assert_eq!(
        State::try_from("CollectingOrderItems"),
        Err("'CollectingOrderItems' is not a state".to_string())
    );
    assert_eq!(State::try_from("Arrived "), Err("'Arrived ' is not a state".to_string()));
}

#[test]
fn stage_names_round_trip() {
    for state in
        [State::CollectingOrderItems, State::PlacingOrder, State::InDelivery, State::Arrived]
    {
        assert_eq!(State::try_from(state.to_string().as_str()), Ok(state));
        assert_eq!(state.name(), state.to_string());
    }
    assert_eq!(State::CollectingOrderItems.to_string(), "CollectingOrders");
    assert_eq!(State::PlacingOrder.to_string(), "PlacingOrders");
    assert_eq!(State::InDelivery.to_string(), "InDelivery");
    assert_eq!(State::Arrived.to_string(), "Arrived");
}
