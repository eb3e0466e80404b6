//! The order lines of a session as a listing, one participant after the
//! other, and the mapping from participant to order lines that it stands for.

use crate::control::state::OrderLineView;
use vstd::prelude::*;

verus! {

/// The participants' order lines one participant after the other, each
/// participant given by name.
pub type Listing = Seq<(Seq<char>, Seq<OrderLineView>)>;

/// Whether a participant of this name occurs in the listing.
pub open spec fn listed(listing: Listing, name: Seq<char>) -> bool {
    exists|i: int| 0 <= i < listing.len() && (#[trigger] listing[i]).0 == name
}

/// A place at which a participant of this name stands in the listing.
pub open spec fn position(listing: Listing, name: Seq<char>) -> int {
    choose|i: int| 0 <= i < listing.len() && (#[trigger] listing[i]).0 == name
}

/// Whether no participant occurs twice in the listing.
pub open spec fn distinct(listing: Listing) -> bool {
    forall|i: int, j: int|
        0 <= i < listing.len() && 0 <= j < listing.len() && i != j ==> (#[trigger] listing[i]).0
            != (#[trigger] listing[j]).0
}

/// The mapping from participant to order lines that a listing stands for.
pub open spec fn listing_map(listing: Listing) -> Map<Seq<char>, Seq<OrderLineView>> {
    Map::new(
        |name: Seq<char>| listed(listing, name),
        |name: Seq<char>| listing[position(listing, name)].1,
    )
}

/// In a listing without repetition a participant stands at one place only.
pub(crate) proof fn lemma_position(listing: Listing, i: int)
    requires
        distinct(listing),
        0 <= i < listing.len(),
    ensures
        listed(listing, listing[i].0),
        position(listing, listing[i].0) == i,
        listing_map(listing).dom().contains(listing[i].0),
        listing_map(listing)[listing[i].0] == listing[i].1,
{
    let at = position(listing, listing[i].0);
    assert(listing[at].0 == listing[i].0);
}

/// A participant who joins at the end is added to the mapping.
pub(crate) proof fn lemma_listing_push(
    listing: Listing,
    name: Seq<char>,
    lines: Seq<OrderLineView>,
)
    requires
        distinct(listing),
        !listed(listing, name),
    ensures
        distinct(listing.push((name, lines))),
        listing_map(listing.push((name, lines))) == listing_map(listing).insert(name, lines),
{
    let longer = listing.push((name, lines));
    let last = listing.len() as int;
    assert(longer[last] == (name, lines));
    assert forall|i: int| 0 <= i < listing.len() implies #[trigger] longer[i] == listing[i] by {}
    assert forall|other: Seq<char>| #[trigger]
        listing_map(longer).dom().contains(other) == listing_map(listing).insert(
            name,
            lines,
        ).dom().contains(other) by {
        if listed(listing, other) {
            assert(longer[position(listing, other)].0 == other);
        }
        if listed(longer, other) && other != name {
            assert(listing[position(longer, other)].0 == other);
        }
    }
    assert forall|other: Seq<char>| #[trigger]
        listing_map(longer).dom().contains(other) implies listing_map(longer)[other]
        == listing_map(listing).insert(name, lines)[other] by {
        let at = position(longer, other);
        lemma_position(longer, at);
        if other != name {
            lemma_position(listing, at);
        }
    }
}

/// New order lines at a participant's place replace the old ones in the
/// mapping.
pub(crate) proof fn lemma_listing_update(listing: Listing, i: int, lines: Seq<OrderLineView>)
    requires
        distinct(listing),
        0 <= i < listing.len(),
    ensures
        distinct(listing.update(i, (listing[i].0, lines))),
        listing_map(listing.update(i, (listing[i].0, lines))) == listing_map(listing).insert(
            listing[i].0,
            lines,
        ),
{
    let name = listing[i].0;
    let changed = listing.update(i, (name, lines));
    assert forall|a: int| 0 <= a < changed.len() implies (#[trigger] changed[a]).0
        == listing[a].0 by {}
    assert forall|other: Seq<char>| #[trigger]
        listing_map(changed).dom().contains(other) == listing_map(listing).insert(
            name,
            lines,
        ).dom().contains(other) by {
        if listed(listing, other) {
            assert(changed[position(listing, other)].0 == other);
        }
        if listed(changed, other) {
            assert(listing[position(changed, other)].0 == other);
        }
    }
    assert forall|other: Seq<char>| #[trigger]
        listing_map(changed).dom().contains(other) implies listing_map(changed)[other]
        == listing_map(listing).insert(name, lines)[other] by {
        let at = position(changed, other);
        lemma_position(changed, at);
        lemma_position(listing, at);
    }
}

/// A participant whose place is taken out leaves the mapping.
pub(crate) proof fn lemma_listing_remove(listing: Listing, i: int)
    requires
        distinct(listing),
        0 <= i < listing.len(),
    ensures
        distinct(listing.remove(i)),
        listing_map(listing.remove(i)) == listing_map(listing).remove(listing[i].0),
{
    let name = listing[i].0;
    let shorter = listing.remove(i);
    assert forall|a: int| 0 <= a < shorter.len() implies #[trigger] shorter[a] == listing[if a
        < i {
        a
    } else {
        a + 1
    }] by {}
    assert forall|other: Seq<char>| #[trigger]
        listing_map(shorter).dom().contains(other) == listing_map(listing).remove(
            name,
        ).dom().contains(other) by {
        if listed(listing, other) && other != name {
            let at = position(listing, other);
            assert(shorter[if at < i { at } else { at - 1 }].0 == other);
        }
        if listed(shorter, other) {
            let at = position(shorter, other);
            assert(listing[if at < i { at } else { at + 1 }].0 == other);
        }
    }
    assert forall|other: Seq<char>| #[trigger]
        listing_map(shorter).dom().contains(other) implies listing_map(shorter)[other]
        == listing_map(listing).remove(name)[other] by {
        let at = position(shorter, other);
        lemma_position(shorter, at);
        lemma_position(listing, if at < i { at } else { at + 1 });
    }
}

} // verus!
