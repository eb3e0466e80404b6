use group_order::boundary::dto::{MenuDto, MenuItemDto, OrderDto, OrderItemDto, UserDto};
use group_order::frontend::{group_by_user, price_total, OrderTemplate};

fn user(id: i32, name: &str) -> UserDto {
    UserDto { id, name: name.to_string() }
}

fn item(id: i32, who: UserDto, price: i32) -> OrderItemDto {
    OrderItemDto {
        id,
        menu_item: MenuItemDto {
            id: 5,
            short_name: "PIZ".to_string(),
            name: "pizza".to_string(),
            price: 850,
        },
        user: who,
        paid: false,
        price,
    }
}

fn order(items: Vec<OrderItemDto>) -> OrderDto {
    OrderDto {
        id: 11,
        order_deadline: None,
        eta: None,
        initiator: user(1, "alice"),
        sugar_person: None,
        state: "CollectingOrders".to_string(),
        menu: MenuDto { id: 3, name: "Luigi".to_string(), url: None },
        items,
    }
}

fn ids(group: &[OrderItemDto]) -> Vec<i32> {
    group.iter().map(|item| item.id).collect()
}

#[test]
fn price_total_adds_the_prices() {
    assert_eq!(price_total(&Vec::new()), Some(0));
    assert_eq!(price_total(&vec![item(1, user(1, "alice"), 850)]), Some(850));
    assert_eq!(
        price_total(&vec![
            item(1, user(1, "alice"), 850),
            item(2, user(2, "bob"), 620),
            item(3, user(1, "alice"), -70),
        ]),
        Some(1400)
    );
}

#[test]
fn price_total_at_the_limits() {
    assert_eq!(
        price_total(&vec![item(1, user(1, "alice"), i32::MAX - 1), item(2, user(1, "alice"), 1)]),
        Some(i32::MAX)
    );
    assert_eq!(
        price_total(&vec![item(1, user(1, "alice"), i32::MAX), item(2, user(1, "alice"), 1)]),
        None
    );
    assert_eq!(
        price_total(&vec![item(1, user(1, "alice"), i32::MIN), item(2, user(1, "alice"), -1)]),
        None
    );
    assert_eq!(
        price_total(&vec![
            item(1, user(1, "alice"), i32::MAX),
            item(2, user(1, "alice"), i32::MAX),
            item(3, user(1, "alice"), i32::MIN),
        ]),
        Some(i32::MAX - 1)
    );
}

#[test]
fn group_by_user_keeps_runs_together() {
    let none: Vec<OrderItemDto> = Vec::new();
    assert!(group_by_user(&none).is_empty());
    let items = vec![
        item(1, user(1, "alice"), 1),
        item(2, user(1, "alice"), 2),
        item(3, user(2, "bob"), 3),
        item(4, user(1, "alice"), 4),
        item(5, user(3, "carol"), 5),
        item(6, user(3, "carol"), 6),
    ];
    let groups = group_by_user(&items);
    let shape: Vec<Vec<i32>> = groups.iter().map(|group| ids(group)).collect();
    assert_eq!(shape, vec![vec![1, 2], vec![3], vec![4], vec![5, 6]]);
    assert_eq!(groups.concat(), items);
}

#[test]
fn the_page_of_an_order_without_items() {
    let page = OrderTemplate::new(order(Vec::new())).unwrap();
    assert_eq!(page.order, order(Vec::new()));
    assert_eq!(page.price_total, 0);
    assert!(page.grouped_items.is_empty());
}

#[test]
fn the_page_of_an_order_has_a_total_for_each_group() {
    let items = vec![
        item(1, user(1, "alice"), 850),
        item(2, user(1, "alice"), 620),
        item(3, user(2, "bob"), 300),
        item(4, user(1, "alice"), 5),
    ];
    let page = OrderTemplate::new(order(items.clone())).unwrap();
    assert_eq!(page.order, order(items.clone()));
    assert_eq!(page.price_total, 1775);
    assert_eq!(
        page.grouped_items,
        vec![
            (user(1, "alice"), 1470, vec![items[0].clone(), items[1].clone()]),
            (user(2, "bob"), 300, vec![items[2].clone()]),
            (user(1, "alice"), 5, vec![items[3].clone()]),
        ]
    );
}

#[test]
fn the_page_is_refused_when_a_total_does_not_fit() {
    let whole = vec![item(1, user(1, "alice"), i32::MAX), item(2, user(2, "bob"), 1)];
    assert_eq!(OrderTemplate::new(order(whole)), None);
    let group = vec![
        item(1, user(1, "alice"), i32::MAX),
        item(2, user(1, "alice"), 1),
        item(3, user(2, "bob"), -10),
    ];
    assert_eq!(price_total(&group), Some(i32::MAX - 9));
    assert_eq!(OrderTemplate::new(order(group)), None);
}

#[test]
fn groups_are_the_runs_of_equal_neighbours() {
    let mut seed: u64 = 7;
    for round in 0..50 {
        let mut items = Vec::new();
        for position in 0..(round % 17) {
            seed = seed.wrapping_mul(6364136223846793005).wrapping_add(1442695040888963407);
            let who = ((seed >> 33) % 2) as i32;
            let name = if (seed >> 40) % 2 == 0 { "somebody" } else { "somebody else" };
            items.push(item(position, user(who, name), position * 10));
        }
        let groups = group_by_user(&items);
        assert_eq!(groups.concat(), items);
        for group in &groups {
            assert!(!group.is_empty());
            assert!(group.iter().all(|item| item.user == group[0].user));
        }
        for pair in groups.windows(2) {
            assert_ne!(pair[0][0].user, pair[1][0].user);
        }
    }
}

#[test]
fn a_user_is_told_by_id_and_name() {
    let items = vec![
        item(1, user(1, "alice"), 1),
        item(2, user(1, "Alice"), 2),
        item(3, user(1, "Alice"), 4),
        item(4, user(2, "Alice"), 8),
    ];
    let groups = group_by_user(&items);
    assert_eq!(
        groups,
        vec![
            vec![items[0].clone()],
            vec![items[1].clone(), items[2].clone()],
            vec![items[3].clone()],
        ]
    );
    let page = OrderTemplate::new(order(items.clone())).unwrap();
    assert_eq!(page.price_total, 15);
    assert_eq!(
        page.grouped_items,
        vec![
            (user(1, "alice"), 1, vec![items[0].clone()]),
            (user(1, "Alice"), 6, vec![items[1].clone(), items[2].clone()]),
            (user(2, "Alice"), 8, vec![items[3].clone()]),
        ]
    );
}

#[test]
fn the_totals_of_the_groups_add_up_to_the_total() {
    let items = vec![
        item(1, user(1, "alice"), 850),
        item(2, user(2, "bob"), -20),
        item(3, user(2, "bob"), 300),
        item(4, user(1, "alice"), 5),
    ];
    let page = OrderTemplate::new(order(items)).unwrap();
    let sum: i32 = page.grouped_items.iter().map(|group| group.1).sum();
    assert_eq!(sum, page.price_total);
    assert_eq!(sum, 1135);
}
