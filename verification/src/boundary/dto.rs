use crate::entity::models::{Menu, MenuItem, Order, OrderItem, User};
use vstd::prelude::*;

verus! {

/// A menu without its items.
#[derive(Debug, Clone, PartialEq, Eq)]
pub struct MenuDto {
    pub id: i32,
    pub name: String,
    pub url: Option<String>,
}

impl MenuDto {
    /// The stored menu as it is shown.
    pub fn from_db(menu: Menu) -> (dto: MenuDto)
        ensures
            dto.id == menu.id,
            dto.name == menu.name,
            dto.url == menu.url,
    {
        MenuDto { id: menu.id, name: menu.name, url: menu.url }
    }
}

/// A menu with its items.
#[derive(Debug, Clone, PartialEq, Eq)]
pub struct MenuWithItemsDto {
    pub id: i32,
    pub name: String,
    pub url: Option<String>,
    pub items: Vec<MenuItemDto>,
}

impl MenuWithItemsDto {
    /// The stored menu together with the given items.
    pub fn from_db(menu: Menu, items: Vec<MenuItemDto>) -> (dto: MenuWithItemsDto)
        ensures
            dto.id == menu.id,
            dto.name == menu.name,
            dto.url == menu.url,
            dto.items == items,
    {
        MenuWithItemsDto { id: menu.id, name: menu.name, url: menu.url, items }
    }
}

/// A request to create a menu.
#[derive(Debug, Clone, PartialEq, Eq)]
pub struct NewMenuDto {
    pub name: String,
    pub url: Option<String>,
    pub items: Vec<NewMenuItemDto>,
}

/// An item of a menu. The price is in the minor unit of the currency.
#[derive(Debug, PartialEq, Eq)]
pub struct MenuItemDto {
    pub id: i32,
    pub short_name: String,
    pub name: String,
    pub price: i32,
}

impl Clone for MenuItemDto {
    fn clone(&self) -> (copy: MenuItemDto)
        ensures
            copy == *self,
    {
        MenuItemDto {
            id: self.id,
            short_name: self.short_name.clone(),
            name: self.name.clone(),
            price: self.price,
        }
    }
}

impl MenuItemDto {
    /// The stored item without the menu that it belongs to.
    pub fn from_db(menu_item: MenuItem) -> (dto: MenuItemDto)
        ensures
            dto.id == menu_item.id,
            dto.short_name == menu_item.short_name,
            dto.name == menu_item.name,
            dto.price == menu_item.price,
    {
        MenuItemDto {
            id: menu_item.id,
            short_name: menu_item.short_name,
            name: menu_item.name,
            price: menu_item.price,
        }
    }
}

/// An item in a request to create a menu.
#[derive(Debug, Clone, PartialEq, Eq)]
pub struct NewMenuItemDto {
    pub short_name: String,
    pub name: String,
    pub price: i32,
}

/// A user. Two users are the same when their ids and their names are equal.
#[derive(Debug, PartialEq, Eq)]
pub struct UserDto {
    pub id: i32,
    pub name: String,
}

impl Clone for UserDto {
    fn clone(&self) -> (copy: UserDto)
        ensures
            copy == *self,
    {
        UserDto { id: self.id, name: self.name.clone() }
    }
}

impl UserDto {
    /// The stored user as it is shown.
    pub fn from_db(db: User) -> (dto: UserDto)
        ensures
            dto.id == db.id,
            dto.name == db.name,
    {
        UserDto { id: db.id, name: db.name }
    }
}

/// A request to create a user.
#[derive(Debug, Clone, PartialEq, Eq)]
pub struct NewUserDto {
    pub name: String,
}

/// An order with its users, its menu and its items resolved.
#[derive(Debug, Clone, PartialEq, Eq)]
pub struct OrderDto {
    pub id: i32,
    pub order_deadline: Option<i32>,
    pub eta: Option<i32>,
    pub initiator: UserDto,
    pub sugar_person: Option<UserDto>,
    pub state: String,
    pub menu: MenuDto,
    pub items: Vec<OrderItemDto>,
}

impl OrderDto {
    /// The stored order, with the given values in place of the ids of its
    /// users.
    pub fn from_db(
        db: Order,
        initiator: UserDto,
        sugar_person: Option<UserDto>,
        menu: MenuDto,
        items: Vec<OrderItemDto>,
    ) -> (dto: OrderDto)
        ensures
            dto.id == db.id,
            dto.order_deadline == db.order_deadline,
            dto.eta == db.eta,
            dto.initiator == initiator,
            dto.sugar_person == sugar_person,
            dto.state == db.state,
            dto.menu == menu,
            dto.items == items,
    {
        OrderDto {
            id: db.id,
            order_deadline: db.order_deadline,
            eta: db.eta,
            initiator,
            sugar_person,
            state: db.state,
            menu,
            items,
        }
    }
}

/// A request to create an order. Users and the menu are given by their ids.
#[derive(Debug, Clone, PartialEq, Eq)]
pub struct NewOrderDto {
    pub order_deadline: Option<i32>,
    pub eta: Option<i32>,
    pub initiator: i32,
    pub sugar_person: Option<i32>,
    pub state: String,
    pub menu: i32,
}

/// An item of an order with its user and its menu item resolved.
#[derive(Debug, PartialEq, Eq)]
pub struct OrderItemDto {
    pub id: i32,
    pub menu_item: MenuItemDto,
    pub user: UserDto,
    pub paid: bool,
    pub price: i32,
}

impl Clone for OrderItemDto {
    fn clone(&self) -> (copy: OrderItemDto)
        ensures
            copy == *self,
    {
        OrderItemDto {
            id: self.id,
            menu_item: self.menu_item.clone(),
            user: self.user.clone(),
            paid: self.paid,
            price: self.price,
        }
    }
}

impl OrderItemDto {
    /// The stored item, with the given values in place of the ids of its user
    /// and its menu item.
    pub fn from_db(db: OrderItem, user: UserDto, menu_item: MenuItemDto) -> (dto: OrderItemDto)
        ensures
            dto.id == db.id,
            dto.menu_item == menu_item,
            dto.user == user,
            dto.paid == db.paid,
            dto.price == db.price,
    {
        OrderItemDto { id: db.id, menu_item, user, paid: db.paid, price: db.price }
    }
}

/// A request to add an item to an order.
#[derive(Debug, Clone, PartialEq, Eq)]
pub struct NewOrderItemDto {
    pub menu_item_id: i32,
    pub user: i32,
    pub order_id: i32,
}

} // verus!
