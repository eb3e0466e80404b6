//! What the page of an order shows besides the order itself: the total
//! price, and the items grouped by user with a total for each group.

use crate::boundary::dto::{OrderDto, OrderItemDto, UserDto};
use itertools::Itertools;
use vstd::prelude::*;
use vstd::seq_lib::lemma_flatten_concat;

verus! {

/// The sum of the prices of the items.
pub open spec fn price_sum(items: Seq<OrderItemDto>) -> int
    decreases items.len(),
{
    if items.len() == 0 {
        0
    } else {
        price_sum(items.drop_last()) + items.last().price
    }
}

/// Whether a total can be shown as a price.
pub open spec fn fits(total: int) -> bool {
    i32::MIN <= total <= i32::MAX
}

/// What tells one user from another: the id and the name.
pub open spec fn user_key(user: UserDto) -> (int, Seq<char>) {
    (user.id as int, user.name@)
}

/// Whether both are the same user: the ids are equal and the names are.
pub open spec fn same_user(left: UserDto, right: UserDto) -> bool {
    user_key(left) == user_key(right)
}

/// The items in runs: items that follow one another and belong to the same
/// user form one group. A user whose items do not stand together has more
/// than one group.
pub open spec fn grouped(items: Seq<OrderItemDto>) -> Seq<Seq<OrderItemDto>>
    decreases items.len(),
{
    if items.len() == 0 {
        Seq::empty()
    } else {
        let front = grouped(items.drop_last());
        let item = items.last();
        if front.len() > 0 && same_user(front.last().last().user, item.user) {
            front.update(front.len() - 1, front.last().push(item))
        } else {
            front.push(seq![item])
        }
    }
}

/// The sum of the totals of the groups.
pub open spec fn totals_sum(groups: Seq<Seq<OrderItemDto>>) -> int
    decreases groups.len(),
{
    if groups.len() == 0 {
        0
    } else {
        totals_sum(groups.drop_last()) + price_sum(groups.last())
    }
}

/// The keys of the users of the items, in the items' order.
pub open spec fn user_keys(items: Seq<OrderItemDto>) -> Seq<(int, Seq<char>)> {
    items.map_values(|item: OrderItemDto| user_key(item.user))
}

/// The keys in runs: keys that follow one another and are equal form one
/// run.
pub open spec fn runs(keys: Seq<(int, Seq<char>)>) -> Seq<Seq<(int, Seq<char>)>>
    decreases keys.len(),
{
    if keys.len() == 0 {
        Seq::empty()
    } else {
        let front = runs(keys.drop_last());
        let key = keys.last();
        if front.len() > 0 && front.last().last() == key {
            front.update(front.len() - 1, front.last().push(key))
        } else {
            front.push(seq![key])
        }
    }
}

/// The keys of a vector as mathematical values: the number and the
/// characters of the text.
pub open spec fn keys_view(keys: Seq<(i32, String)>) -> Seq<(int, Seq<char>)> {
    keys.map_values(|key: (i32, String)| (key.0 as int, key.1@))
}

/// The views of a vector of runs of keys, in the vector's order.
pub open spec fn runs_view(chunks: Seq<Vec<(i32, String)>>) -> Seq<Seq<(int, Seq<char>)>> {
    chunks.map_values(|chunk: Vec<(i32, String)>| keys_view(chunk@))
}

/// `Itertools::chunk_by` on a vector of keys, each key standing for itself,
/// with every group collected into a vector: consecutive equal keys are
/// assigned to the same group, and the groups come in the order of the keys.
/// Two keys are equal when their numbers are and their texts hold the same
/// characters.
#[verifier::external_body]
fn chunk_runs(keys: &Vec<(i32, String)>) -> (chunks: Vec<Vec<(i32, String)>>)
    ensures
        runs_view(chunks@) == runs(keys_view(keys@)),
{
    let chunks = keys.iter().chunk_by(|key| *key);
    (&chunks).into_iter().map(|(_, run)| run.cloned().collect()).collect()
}

/// The views of a vector of groups, in the vector's order.
pub open spec fn groups_view(groups: Seq<Vec<OrderItemDto>>) -> Seq<Seq<OrderItemDto>> {
    groups.map_values(|group: Vec<OrderItemDto>| group@)
}

/// Two groups that follow one another belong to different users.
pub proof fn lemma_grouped_neighbours_differ(items: Seq<OrderItemDto>)
    ensures
        forall|g: int|
            0 <= g && g + 1 < grouped(items).len() ==> !same_user(
                (#[trigger] grouped(items)[g]).last().user,
                grouped(items)[g + 1][0].user,
            ),
    decreases items.len(),
{
    if items.len() > 0 {
        lemma_grouped_neighbours_differ(items.drop_last());
        lemma_grouped_runs(items.drop_last());
    }
}

/// No group is empty, all items of a group belong to the user of its first
/// item, and the groups one after the other are the items.
pub proof fn lemma_grouped_runs(items: Seq<OrderItemDto>)
    ensures
        forall|g: int| 0 <= g < grouped(items).len() ==> (#[trigger] grouped(items)[g]).len() > 0,
        forall|g: int, i: int|
            0 <= g < grouped(items).len() && 0 <= i < grouped(items)[g].len() ==> same_user(
                (#[trigger] grouped(items)[g][i]).user,
                grouped(items)[g][0].user,
            ),
        grouped(items).flatten() == items,
        items.len() > 0 ==> grouped(items).len() > 0 && grouped(items).last().last()
            == items.last(),
    decreases items.len(),
{
    if items.len() > 0 {
        let earlier = items.drop_last();
        let item = items.last();
        let front = grouped(earlier);
        lemma_grouped_runs(earlier);
        if front.len() > 0 && same_user(front.last().last().user, item.user) {
            assert(front =~= front.drop_last().push(front.last()));
            assert(grouped(items) =~= front.drop_last().push(front.last().push(item)));
            front.drop_last().lemma_flatten_push(front.last());
            front.drop_last().lemma_flatten_push(front.last().push(item));
            assert(grouped(items).flatten() =~= earlier.push(item));
        } else {
            front.lemma_flatten_push(seq![item]);
        }
    }
}

/// The totals of the groups add up to the total of the items.
pub proof fn lemma_group_totals_add_up(items: Seq<OrderItemDto>)
    ensures
        totals_sum(grouped(items)) == price_sum(items),
    decreases items.len(),
{
    if items.len() > 0 {
        let earlier = items.drop_last();
        let item = items.last();
        let front = grouped(earlier);
        let groups = grouped(items);
        lemma_group_totals_add_up(earlier);
        if front.len() > 0 && same_user(front.last().last().user, item.user) {
            let longer = front.last().push(item);
            assert(groups.drop_last() =~= front.drop_last());
            assert(groups.last() == longer);
            assert(longer.drop_last() =~= front.last());
            assert(price_sum(longer) == price_sum(front.last()) + item.price);
            assert(totals_sum(groups) == totals_sum(front.drop_last()) + price_sum(longer));
        } else {
            assert(groups.drop_last() =~= front);
            assert(groups.last() == seq![item]);
            assert(seq![item].drop_last() =~= Seq::<OrderItemDto>::empty());
            assert(price_sum(seq![item]) == price_sum(Seq::<OrderItemDto>::empty()) + item.price);
            assert(totals_sum(groups) == totals_sum(front) + price_sum(seq![item]));
        }
    }
}

/// The total price of the items, if it can be shown as a price.
pub fn price_total(items: &Vec<OrderItemDto>) -> (total: Option<i32>)
    ensures
        match total {
            Some(total) => total == price_sum(items@),
            None => !fits(price_sum(items@)),
        },
{
    let mut sum: i128 = 0;
    let mut i: usize = 0;
    while i < items.len()
        invariant
            i <= items.len(),
            sum == price_sum(items@.subrange(0, i as int)),
            -0x8000_0000 * i <= sum <= 0x8000_0000 * i,
        decreases items.len() - i,
    {
        proof {
            assert(items@.subrange(0, i + 1).drop_last() =~= items@.subrange(0, i as int));
        }
        sum = sum + items[i].price as i128;
        i += 1;
    }
    proof {
        assert(items@.subrange(0, items@.len() as int) =~= items@);
    }
    if -0x8000_0000 <= sum && sum <= 0x7fff_ffff {
        Some(sum as i32)
    } else {
        None
    }
}

/// The groups of the items have the keys of the runs of the users' keys.
proof fn lemma_grouped_keys(items: Seq<OrderItemDto>)
    ensures
        grouped(items).map_values(|group: Seq<OrderItemDto>| user_keys(group)) == runs(
            user_keys(items),
        ),
    decreases items.len(),
{
    if items.len() > 0 {
        let earlier = items.drop_last();
        let item = items.last();
        let front = grouped(earlier);
        lemma_grouped_keys(earlier);
        lemma_grouped_runs(earlier);
        assert(user_keys(items).drop_last() =~= user_keys(earlier));
        if front.len() > 0 && same_user(front.last().last().user, item.user) {
            assert(user_keys(front.last().push(item)) =~= user_keys(front.last()).push(
                user_key(item.user),
            ));
        } else {
            assert(user_keys(seq![item]) =~= seq![user_key(item.user)]);
        }
    }
}

/// A group of the items is the part of the items that follows the groups
/// before it.
proof fn lemma_group_is_a_part(items: Seq<OrderItemDto>, g: int)
    requires
        0 <= g < grouped(items).len(),
    ensures
        ({
            let start = grouped(items).subrange(0, g).flatten().len() as int;
            let end = start + grouped(items)[g].len();
            &&& end <= items.len()
            &&& items.subrange(start, end) == grouped(items)[g]
            &&& grouped(items).subrange(0, g + 1).flatten().len() == end
        }),
{
    let groups = grouped(items);
    let before = groups.subrange(0, g);
    let after = groups.subrange(g + 1, groups.len() as int);
    lemma_grouped_runs(items);
    assert(groups =~= before.push(groups[g]) + after);
    assert(groups.subrange(0, g + 1) =~= before.push(groups[g]));
    lemma_flatten_concat(before.push(groups[g]), after);
    before.lemma_flatten_push(groups[g]);
}

/// The items in runs of the same user, each item copied. Two users are the
/// same when their ids and their names are equal.
pub fn group_by_user(items: &Vec<OrderItemDto>) -> (groups: Vec<Vec<OrderItemDto>>)
    ensures
        groups_view(groups@) == grouped(items@),
{
    let mut keys: Vec<(i32, String)> = Vec::new();
    let mut i: usize = 0;
    while i < items.len()
        invariant
            i <= items.len(),
            keys@.len() == i,
            forall|j: int|
                0 <= j < i ==> (#[trigger] keys@[j]).0 == items@[j].user.id && keys@[j].1@
                    == items@[j].user.name@,
        decreases items.len() - i,
    {
        keys.push((items[i].user.id, items[i].user.name.clone()));
        i += 1;
    }
    let chunks = chunk_runs(&keys);
    let ghost all = grouped(items@);
    proof {
        assert(keys_view(keys@) =~= user_keys(items@));
        lemma_grouped_keys(items@);
        assert(runs_view(chunks@).len() == all.len());
        assert forall|g: int| 0 <= g < all.len() implies (#[trigger] chunks@[g])@.len()
            == all[g].len() by {
            assert(runs_view(chunks@)[g] == user_keys(all[g]));
        }
    }
    let mut groups: Vec<Vec<OrderItemDto>> = Vec::new();
    let mut start: usize = 0;
    let mut g: usize = 0;
    while g < chunks.len()
        invariant
            g <= chunks.len(),
            chunks@.len() == all.len(),
            all == grouped(items@),
            forall|h: int| 0 <= h < all.len() ==> (#[trigger] chunks@[h])@.len() == all[h].len(),
            groups_view(groups@) == all.subrange(0, g as int),
            start == all.subrange(0, g as int).flatten().len(),
            start <= items.len(),
        decreases chunks.len() - g,
    {
        proof {
            lemma_group_is_a_part(items@, g as int);
        }
        let size = chunks[g].len();
        let mut group: Vec<OrderItemDto> = Vec::new();
        let mut k: usize = 0;
        while k < size
            invariant
                k <= size,
                start + size <= items.len(),
                group@ == items@.subrange(start as int, start + k),
            decreases size - k,
        {
            group.push(items[start + k].clone());
            k += 1;
        }
        groups.push(group);
        start += size;
        g += 1;
    }
    groups
}

/// What the page of an order shows: the order, the total price of its
/// items, and for each group of items its user, its total and the items.
#[derive(Debug, PartialEq, Eq)]
pub struct OrderTemplate {
    pub order: OrderDto,
    pub price_total: i32,
    pub grouped_items: Vec<(UserDto, i32, Vec<OrderItemDto>)>,
}

impl OrderTemplate {
    /// Whether the groups are those of the items, each with the user of its
    /// items and the sum of their prices.
    pub open spec fn groups_of(
        groups: Seq<(UserDto, i32, Vec<OrderItemDto>)>,
        items: Seq<OrderItemDto>,
    ) -> bool {
        &&& groups.len() == grouped(items).len()
        &&& forall|g: int|
            0 <= g < groups.len() ==> {
                &&& (#[trigger] groups[g]).2@ == grouped(items)[g]
                &&& groups[g].0 == grouped(items)[g][0].user
                &&& groups[g].1 == price_sum(grouped(items)[g])
            }
    }

    /// Whether every total of the page can be shown as a price.
    pub open spec fn totals_fit(items: Seq<OrderItemDto>) -> bool {
        &&& fits(price_sum(items))
        &&& forall|g: int|
            0 <= g < grouped(items).len() ==> fits(price_sum(#[trigger] grouped(items)[g]))
    }

    /// The page of an order, if every total on it can be shown as a price.
    /// The groups are the runs of items of the same user, in the items' order,
    /// and their totals add up to the total of the order.
    pub fn new(order: OrderDto) -> (page: Option<OrderTemplate>)
        ensures
            match page {
                Some(page) => {
                    &&& page.order == order
                    &&& page.price_total == price_sum(order.items@)
                    &&& page.price_total == totals_sum(grouped(order.items@))
                    &&& OrderTemplate::groups_of(page.grouped_items@, order.items@)
                },
                None => !OrderTemplate::totals_fit(order.items@),
            },
    {
        let whole = match price_total(&order.items) {
            Some(total) => total,
            None => {
                return None;
            },
        };
        let groups = group_by_user(&order.items);
        let ghost all = groups_view(groups@);
        proof {
            lemma_grouped_runs(order.items@);
            lemma_group_totals_add_up(order.items@);
        }
        let mut grouped_items: Vec<(UserDto, i32, Vec<OrderItemDto>)> = Vec::new();
        for group in iter: groups.into_iter()
            invariant
                iter.seq() == groups@,
                all == groups_view(groups@),
                all == grouped(order.items@),
                forall|g: int| 0 <= g < all.len() ==> (#[trigger] all[g]).len() > 0,
                grouped_items@.len() == iter.index(),
                forall|g: int|
                    0 <= g < iter.index() ==> {
                        &&& (#[trigger] grouped_items@[g]).2@ == all[g]
                        &&& grouped_items@[g].0 == all[g][0].user
                        &&& grouped_items@[g].1 == price_sum(all[g])
                    },
        {
            assert(group@ == all[iter.index() as int]);
            let total = match price_total(&group) {
                Some(total) => total,
                None => {
                    return None;
                },
            };
            let user = group[0].user.clone();
            grouped_items.push((user, total, group));
        }
        Some(OrderTemplate { order, price_total: whole, grouped_items })
    }
}

} // verus!
