use group_order::boundary::dto::{
    MenuDto, MenuItemDto, MenuWithItemsDto, NewMenuDto, NewMenuItemDto, NewOrderDto,
    NewOrderItemDto, NewUserDto, OrderDto, OrderItemDto, UserDto,
};
use group_order::entity::models::{
    Menu, MenuItem, NewMenu, NewMenuItem, NewOrder, NewOrderItem, NewUser, Order, OrderItem, User,
};

fn menu() -> Menu {
    Menu { id: 3, name: "Luigi".to_string(), url: Some("https://luigi.example".to_string()) }
}

fn menu_item_dto() -> MenuItemDto {
    MenuItemDto { id: 5, short_name: "PIZ".to_string(), name: "pizza".to_string(), price: 850 }
}

fn user_dto(id: i32, name: &str) -> UserDto {
    UserDto { id, name: name.to_string() }
}

#[test]
fn menu_dto_from_db() {
    assert_eq!(
        MenuDto::from_db(menu()),
        MenuDto {
            id: 3,
            name: "Luigi".to_string(),
            url: Some("https://luigi.example".to_string())
        }
    );
    assert_eq!(
        MenuDto::from_db(Menu { id: -1, name: String::new(), url: None }),
        MenuDto { id: -1, name: String::new(), url: None }
    );
}

#[test]
fn menu_with_items_dto_from_db() {
    let dto = MenuWithItemsDto::from_db(menu(), vec![menu_item_dto()]);
    assert_eq!(dto.id, 3);
    assert_eq!(dto.name, "Luigi");
    assert_eq!(dto.url, Some("https://luigi.example".to_string()));
    assert_eq!(dto.items, vec![menu_item_dto()]);
}

#[test]
fn menu_item_dto_from_db_drops_the_menu() {
    let stored = MenuItem {
        id: 5,
        short_name: "PIZ".to_string(),
        name: "pizza".to_string(),
        menu_id: 3,
        price: 850,
    };
    assert_eq!(MenuItemDto::from_db(stored), menu_item_dto());
}

#[test]
fn user_dto_from_db() {
    assert_eq!(UserDto::from_db(User { id: 9, name: "alice".to_string() }), user_dto(9, "alice"));
}

#[test]
fn order_dto_from_db() {
    let stored = Order {
        id: 11,
        order_deadline: Some(1000),
        eta: None,
        initiator: 9,
        sugar_person: Some(10),
        state: "CollectingOrders".to_string(),
    };
    let line = OrderItemDto {
        id: 1,
        menu_item: menu_item_dto(),
        user: user_dto(9, "alice"),
        paid: true,
        price: 850,
    };
    let dto = OrderDto::from_db(
        stored,
        user_dto(9, "alice"),
        Some(user_dto(10, "bob")),
        MenuDto::from_db(menu()),
        vec![line.clone()],
    );
    assert_eq!(dto.id, 11);
    assert_eq!(dto.order_deadline, Some(1000));
    assert_eq!(dto.eta, None);
    assert_eq!(dto.initiator, user_dto(9, "alice"));
    assert_eq!(dto.sugar_person, Some(user_dto(10, "bob")));
    assert_eq!(dto.state, "CollectingOrders");
    assert_eq!(dto.menu, MenuDto::from_db(menu()));
    assert_eq!(dto.items, vec![line]);
}

#[test]
fn order_item_dto_from_db() {
    let stored = OrderItem { id: 1, menu_item_id: 5, user: 9, paid: true, order_id: 11, price: 900 };
    assert_eq!(
        OrderItemDto::from_db(stored, user_dto(9, "alice"), menu_item_dto()),
        OrderItemDto {
            id: 1,
            menu_item: menu_item_dto(),
            user: user_dto(9, "alice"),
            paid: true,
            price: 900
        }
    );
}

#[test]
fn new_menu_from_dto() {
    let dto = NewMenuDto {
        name: "Luigi".to_string(),
        url: None,
        items: vec![NewMenuItemDto {
            short_name: "PIZ".to_string(),
            name: "pizza".to_string(),
            price: 850,
        }],
    };
    assert_eq!(NewMenu::from_dto(dto), NewMenu { name: "Luigi".to_string(), url: None });
}

#[test]
fn new_menu_item_from_dto() {
    let dto =
        NewMenuItemDto { short_name: "PIZ".to_string(), name: "pizza".to_string(), price: 850 };
    assert_eq!(
        NewMenuItem::from_dto(dto, 3),
        NewMenuItem {
            short_name: "PIZ".to_string(),
            name: "pizza".to_string(),
            menu_id: 3,
            price: 850
        }
    );
}

#[test]
fn requests_are_plain_values() {
    let user = NewUserDto { name: "alice".to_string() };
    assert_eq!(user.clone(), user);
    let order = NewOrderDto {
        order_deadline: None,
        eta: Some(5),
        initiator: 9,
        sugar_person: None,
        state: "CollectingOrders".to_string(),
        menu: 3,
    };
    assert_eq!(order.clone(), order);
    let item = NewOrderItemDto { menu_item_id: 5, user: 9, order_id: 11 };
    assert_eq!(item.clone(), item);
    let stored_user = NewUser { name: "alice".to_string() };
    assert_eq!(stored_user.clone(), stored_user);
    let stored_order = NewOrder {
        order_deadline: None,
        eta: Some(5),
        initiator: 9,
        sugar_person: None,
        state: "CollectingOrders".to_string(),
    };
    assert_eq!(stored_order.clone(), stored_order);
    let stored_item = NewOrderItem { menu_item_id: 5, user: 9, paid: false, order_id: 11 };
    assert_eq!(stored_item.clone(), stored_item);
}
