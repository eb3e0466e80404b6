use crate::boundary::dto::{NewMenuDto, NewMenuItemDto};
use vstd::prelude::*;

verus! {

/// A stored menu.
#[derive(Debug, Clone, PartialEq, Eq)]
pub struct Menu {
    pub id: i32,
    pub name: String,
    pub url: Option<String>,
}

/// A menu that is not stored yet.
#[derive(Debug, Clone, PartialEq, Eq)]
pub struct NewMenu {
    pub name: String,
    pub url: Option<String>,
}

impl NewMenu {
    /// The menu that a request describes. The request's items are stored
    /// apart, each by [`NewMenuItem::from_dto`].
    pub fn from_dto(dto: NewMenuDto) -> (menu: NewMenu)
        ensures
            menu.name == dto.name,
            menu.url == dto.url,
    {
        NewMenu { name: dto.name, url: dto.url }
    }
}

/// A stored item of a menu. The price is in the minor unit of the currency.
#[derive(Debug, Clone, PartialEq, Eq)]
pub struct MenuItem {
    pub id: i32,
    pub short_name: String,
    pub name: String,
    pub menu_id: i32,
    pub price: i32,
}

/// An item of a menu that is not stored yet.
#[derive(Debug, Clone, PartialEq, Eq)]
pub struct NewMenuItem {
    pub short_name: String,
    pub name: String,
    pub menu_id: i32,
    pub price: i32,
}

impl NewMenuItem {
    /// The item that a request describes, as an item of the given menu.
    pub fn from_dto(dto: NewMenuItemDto, menu: i32) -> (item: NewMenuItem)
        ensures
            item.short_name == dto.short_name,
            item.name == dto.name,
            item.menu_id == menu,
            item.price == dto.price,
    {
        NewMenuItem { short_name: dto.short_name, name: dto.name, menu_id: menu, price: dto.price }
    }
}

/// A stored user.
#[derive(Debug, Clone, PartialEq, Eq)]
pub struct User {
    pub id: i32,
    pub name: String,
}

/// A user who is not stored yet.
#[derive(Debug, Clone, PartialEq, Eq)]
pub struct NewUser {
    pub name: String,
}

/// A stored order. Users are given by their ids, the deadline and the
/// estimated arrival as points in time, and the state by its name.
#[derive(Debug, Clone, PartialEq, Eq)]
pub struct Order {
    pub id: i32,
    pub order_deadline: Option<i32>,
    pub eta: Option<i32>,
    pub initiator: i32,
    pub sugar_person: Option<i32>,
    pub state: String,
}

/// An order that is not stored yet.
#[derive(Debug, Clone, PartialEq, Eq)]
pub struct NewOrder {
    pub order_deadline: Option<i32>,
    pub eta: Option<i32>,
    pub initiator: i32,
    pub sugar_person: Option<i32>,
    pub state: String,
}

/// A stored item of an order.
#[derive(Debug, Clone, PartialEq, Eq)]
pub struct OrderItem {
    pub id: i32,
    pub menu_item_id: i32,
    pub user: i32,
    pub paid: bool,
    pub order_id: i32,
    pub price: i32,
}

/// An item of an order that is not stored yet.
#[derive(Debug, Clone, PartialEq, Eq)]
pub struct NewOrderItem {
    pub menu_item_id: i32,
    pub user: i32,
    pub paid: bool,
    pub order_id: i32,
}

} // verus!
