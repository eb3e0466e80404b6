use crate::control::menu::{menu_item_layout, MenuItem, MenuItemView};
use crate::control::user::User;
use crate::control::listing::{
    distinct, lemma_listing_push, lemma_listing_remove, lemma_listing_update, lemma_position,
    listed, listing_map, Listing,
};
use crate::text::{join, joined, list, list_layout, quoted, texts};
use vstd::prelude::*;
use vstd::string::*;

verus! {

/// The phase of the session's lifecycle.
///
/// `Idle`: no round is open. `TakeOrders`: participants add and cancel order
/// lines. `Ordered`: the round is finalized and its lines can no longer be
/// edited.
#[derive(Debug, Clone, Copy, PartialEq, Eq, Structural)]
pub enum MachineState {
    Idle,
    TakeOrders,
    Ordered,
}

/// The name of a phase.
pub open spec fn phase_name(phase: MachineState) -> Seq<char> {
    match phase {
        MachineState::Idle => "Idle"@,
        MachineState::TakeOrders => "TakeOrders"@,
        MachineState::Ordered => "Ordered"@,
    }
}

impl MachineState {
    /// The name of the phase.
    pub fn name(&self) -> (name: &'static str)
        ensures
            name@ == phase_name(*self),
    {
        match self {
            MachineState::Idle => "Idle",
            MachineState::TakeOrders => "TakeOrders",
            MachineState::Ordered => "Ordered",
        }
    }
}

/// One unit of a participant's contribution to the round.
#[derive(Debug)]
pub struct OrderLine {
    pub user: User,
    pub menu_item: MenuItem,
    pub paid: bool,
}

/// What an [`OrderLine`] holds, as mathematical values.
pub struct OrderLineView {
    pub user: Seq<char>,
    pub menu_item: MenuItemView,
    pub paid: bool,
}

impl View for OrderLine {
    type V = OrderLineView;

    open spec fn view(&self) -> OrderLineView {
        OrderLineView { user: self.user@, menu_item: self.menu_item@, paid: self.paid }
    }
}

impl Clone for OrderLine {
    fn clone(&self) -> (copy: OrderLine)
        ensures
            copy@ == self@,
    {
        OrderLine { user: self.user.clone(), menu_item: self.menu_item.clone(), paid: self.paid }
    }
}

/// The views of a vector of order lines, in the vector's order.
pub open spec fn lines_view(lines: Seq<OrderLine>) -> Seq<OrderLineView> {
    lines.map_values(|line: OrderLine| line@)
}

/// The session as a mathematical value: its phase, and for each participant
/// who has order lines, those lines in the order in which they were added.
pub struct StateView {
    pub machine_state: MachineState,
    pub orders: Map<Seq<char>, Seq<OrderLineView>>,
}

/// The session before anything has happened: idle, with no order lines.
pub open spec fn initial_state() -> StateView {
    StateView { machine_state: MachineState::Idle, orders: Map::empty() }
}

/// The order lines that a session holds for a participant: none where the
/// participant has no entry.
pub open spec fn lines_of(state: StateView, name: Seq<char>) -> Seq<OrderLineView> {
    if state.orders.dom().contains(name) {
        state.orders[name]
    } else {
        Seq::empty()
    }
}

/// The line of text for one participant, given the participant's name and
/// the text of the ordered items.
pub open spec fn entry_layout(name: Seq<char>, items: Seq<char>) -> Seq<char> {
    "user: "@ + name + "; orders: "@ + items
}

/// The text of a session, given one line of text for each participant: the
/// lines, and after them a line that names the phase.
pub open spec fn state_layout(entries: Seq<Seq<char>>, phase: MachineState) -> Seq<char> {
    joined(entries, "\n"@) + "\ncurrent state: "@ + phase_name(phase)
}

/// The debug text of the menu item of an order line.
pub open spec fn item_text(line: OrderLineView) -> Seq<char> {
    menu_item_layout(
        line.menu_item.id,
        quoted(line.menu_item.short_name),
        quoted(line.menu_item.name),
        line.menu_item.price,
    )
}

/// The line of text for one participant: the name, and the menu items of the
/// participant's order lines as a list.
pub open spec fn entry_text(entry: (Seq<char>, Seq<OrderLineView>)) -> Seq<char> {
    entry_layout(entry.0, list_layout(entry.1.map_values(|line: OrderLineView| item_text(line))))
}

/// The text of a session: one line for each participant of the listing, in
/// the listing's order, and a last line that names the phase.
pub open spec fn state_text(listing: Listing, phase: MachineState) -> Seq<char> {
    state_layout(
        listing.map_values(|entry: (Seq<char>, Seq<OrderLineView>)| entry_text(entry)),
        phase,
    )
}

/// The line of text for one participant.
pub fn entry(name: &str, items: &str) -> (text: String)
    ensures
        text@ == entry_layout(name@, items@),
{
    let mut text = "user: ".to_owned();
    text.append(name);
    text.append("; orders: ");
    text.append(items);
    text
}

/// One participant's order lines.
#[derive(Debug)]
struct Entry {
    user: User,
    lines: Vec<OrderLine>,
}

impl Entry {
    spec fn model(&self) -> (Seq<char>, Seq<OrderLineView>) {
        (self.user@, lines_view(self.lines@))
    }

    /// The lines are the participant's own, and there is at least one.
    spec fn wf(&self) -> bool {
        &&& self.lines@.len() > 0
        &&& forall|i: int|
            0 <= i < self.lines@.len() ==> (#[trigger] self.lines@[i]).user@ == self.user@
    }
}

/// The session state: the current phase and the order lines collected so far.
///
/// A value of this type is a snapshot. Only the actions of this crate produce
/// a new one.
#[derive(Debug)]
pub struct State {
    orders: Vec<Entry>,
    machine_state: MachineState,
}

impl State {
    /// The participants' order lines in the order in which the participants
    /// joined the round.
    pub closed spec fn listing(&self) -> Listing {
        self.orders@.map_values(|entry: Entry| entry.model())
    }

    /// No participant occurs twice, every participant has order lines of
    /// their own, and a finalized round has order lines.
    #[verifier::type_invariant]
    spec fn wf(&self) -> bool {
        &&& distinct(self.listing())
        &&& forall|i: int| 0 <= i < self.orders@.len() ==> (#[trigger] self.orders@[i]).wf()
        &&& self.machine_state == MachineState::Ordered ==> self.orders@.len() > 0
    }
}

impl View for State {
    type V = StateView;

    closed spec fn view(&self) -> StateView {
        StateView { machine_state: self.machine_state, orders: listing_map(self.listing()) }
    }
}

impl State {
    /// The idle session without order lines.
    pub fn new() -> (state: State)
        ensures
            state@ == initial_state(),
            state.listing().len() == 0,
    {
        let state = State { orders: Vec::new(), machine_state: MachineState::Idle };
        assert(state@.orders =~= Map::empty());
        state
    }

    /// The current phase. A finalized round has order lines.
    pub fn machine_state(&self) -> (phase: MachineState)
        ensures
            phase == self@.machine_state,
            phase == MachineState::Ordered ==> self@.orders != Map::<
                Seq<char>,
                Seq<OrderLineView>,
            >::empty(),
    {
        proof {
            use_type_invariant(self);
            if self.orders@.len() > 0 {
                lemma_position(self.listing(), 0);
            }
        }
        self.machine_state
    }

    /// Where the participant's entry stands, if there is one.
    fn find(&self, user: &User) -> (found: Option<usize>)
        ensures
            match found {
                Some(i) => i < self.listing().len() && self.listing()[i as int].0 == user@,
                None => !listed(self.listing(), user@),
            },
    {
        let mut i: usize = 0;
        while i < self.orders.len()
            invariant
                i <= self.orders.len(),
                forall|j: int| 0 <= j < i ==> (#[trigger] self.listing()[j]).0 != user@,
            decreases self.orders.len() - i,
        {
            if self.orders[i].user.same_as(user) {
                return Some(i);
            }
            i += 1;
        }
        None
    }

    /// Whether no participant has an order line.
    pub fn is_empty(&self) -> (empty: bool)
        ensures
            empty == (self@.orders == Map::<Seq<char>, Seq<OrderLineView>>::empty()),
    {
        let empty = self.orders.len() == 0;
        proof {
            use_type_invariant(self);
            if empty {
                assert(self@.orders =~= Map::empty());
            } else {
                lemma_position(self.listing(), 0);
            }
        }
        empty
    }

    /// The order lines of a participant, in the order in which they were added.
    /// A participant of the session has at least one, and each names the
    /// participant.
    pub fn orders_of(&self, user: &User) -> (lines: Option<&Vec<OrderLine>>)
        ensures
            match lines {
                Some(lines) => {
                    &&& self@.orders.dom().contains(user@)
                    &&& lines_view(lines@) == self@.orders[user@]
                    &&& lines@.len() > 0
                    &&& forall|i: int|
                        0 <= i < lines@.len() ==> (#[trigger] lines@[i]).user@ == user@
                },
                None => !self@.orders.dom().contains(user@),
            },
    {
        match self.find(user) {
            Some(i) => {
                proof {
                    use_type_invariant(self);
                    lemma_position(self.listing(), i as int);
                }
                Some(&self.orders[i].lines)
            },
            None => None,
        }
    }

    /// The participants who have order lines, in the order in which they joined
    /// the round. No participant occurs twice.
    pub fn participants(&self) -> (users: Vec<User>)
        ensures
            users@.len() == self.listing().len(),
            forall|i: int| 0 <= i < users@.len() ==> (#[trigger] users@[i])@ == self.listing()[i].0,
            distinct(self.listing()),
            self@.orders == listing_map(self.listing()),
    {
        proof {
            use_type_invariant(self);
        }
        let mut users: Vec<User> = Vec::new();
        let mut i: usize = 0;
        while i < self.orders.len()
            invariant
                i <= self.orders.len(),
                users@.len() == i,
                forall|j: int| 0 <= j < i ==> (#[trigger] users@[j])@ == self.listing()[j].0,
            decreases self.orders.len() - i,
        {
            users.push(self.orders[i].user.clone());
            i += 1;
        }
        users
    }

    /// The same session in another phase. A session without order lines
    /// cannot be finalized.
    pub(crate) fn with_machine_state(self, phase: MachineState) -> (next: State)
        requires
            phase == MachineState::Ordered ==> self@.orders != Map::<
                Seq<char>,
                Seq<OrderLineView>,
            >::empty(),
        ensures
            next@ == (StateView { machine_state: phase, orders: self@.orders }),
            next.listing() == self.listing(),
    {
        proof {
            use_type_invariant(&self);
            if self.orders@.len() == 0 {
                assert(self@.orders =~= Map::empty());
            }
        }
        State { orders: self.orders, machine_state: phase }
    }

    /// The session with one more order line, unpaid, at the end of the
    /// participant's lines. A participant without lines joins the round.
    pub(crate) fn with_line(self, user: User, menu_item: MenuItem) -> (next: State)
        ensures
            next@ == (StateView {
                machine_state: self@.machine_state,
                orders: self@.orders.insert(
                    user@,
                    lines_of(self@, user@).push(
                        OrderLineView { user: user@, menu_item: menu_item@, paid: false },
                    ),
                ),
            }),
    {
        proof {
            use_type_invariant(&self);
        }
        let ghost before = self.listing();
        let ghost line = OrderLineView { user: user@, menu_item: menu_item@, paid: false };
        let found = self.find(&user);
        let machine_state = self.machine_state;
        let mut orders = self.orders;
        match found {
            Some(i) => {
                proof {
                    lemma_position(before, i as int);
                }
                let ghost lines = lines_view(orders@[i as int].lines@);
                orders[i].lines.push(OrderLine { user, menu_item, paid: false });
                proof {
                    assert(lines_view(orders@[i as int].lines@) =~= lines.push(line));
                    lemma_listing_update(before, i as int, lines.push(line));
                    assert(orders@.map_values(|entry: Entry| entry.model()) =~= before.update(
                        i as int,
                        (before[i as int].0, lines.push(line)),
                    ));
                }
            },
            None => {
                let mut lines: Vec<OrderLine> = Vec::new();
                let name = user.clone();
                lines.push(OrderLine { user, menu_item, paid: false });
                proof {
                    assert(lines_view(lines@) =~= Seq::<OrderLineView>::empty().push(line));
                    lemma_listing_push(before, name@, lines_view(lines@));
                }
                orders.push(Entry { user: name, lines });
                proof {
                    assert(orders@.map_values(|entry: Entry| entry.model()) =~= before.push(
                        (line.user, Seq::<OrderLineView>::empty().push(line)),
                    ));
                }
            },
        }
        State { orders, machine_state }
    }

    /// The session without the participant's order lines. Nobody leaves a
    /// finalized round.
    pub(crate) fn without(self, user: &User) -> (next: State)
        requires
            self@.machine_state != MachineState::Ordered,
        ensures
            next@ == (StateView {
                machine_state: self@.machine_state,
                orders: self@.orders.remove(user@),
            }),
    {
        proof {
            use_type_invariant(&self);
        }
        let ghost before = self.listing();
        let found = self.find(user);
        let machine_state = self.machine_state;
        let mut orders = self.orders;
        match found {
            Some(i) => {
                proof {
                    lemma_listing_remove(before, i as int);
                }
                orders.remove(i);
                proof {
                    assert(orders@.map_values(|entry: Entry| entry.model()) =~= before.remove(
                        i as int,
                    ));
                }
            },
            None => {
                proof {
                    assert(listing_map(before).remove(user@) =~= listing_map(before));
                }
            },
        }
        State { orders, machine_state }
    }
}

impl State {
    /// The text of a session with the given lines for its participants, in the
    /// given phase.
    pub fn layout(entries: &Vec<String>, phase: MachineState) -> (text: String)
        ensures
            text@ == state_layout(texts(entries@), phase),
    {
        let mut text = join(entries, "\n");
        text.append("\ncurrent state: ");
        text.append(phase.name());
        text
    }

    /// The session as text: for each participant a line with the name and
    /// the ordered menu items, then a line with the phase.
    pub fn to_string(&self) -> (text: String)
        ensures
            text@ == state_text(self.listing(), self@.machine_state),
    {
        let mut entries: Vec<String> = Vec::new();
        let mut i: usize = 0;
        while i < self.orders.len()
            invariant
                i <= self.orders.len(),
                entries@.len() == i,
                forall|j: int|
                    0 <= j < i ==> (#[trigger] entries@[j])@ == entry_text(self.listing()[j]),
            decreases self.orders.len() - i,
        {
            let lines = &self.orders[i].lines;
            let mut items: Vec<String> = Vec::new();
            let mut k: usize = 0;
            while k < lines.len()
                invariant
                    k <= lines.len(),
                    items@.len() == k,
                    forall|j: int| 0 <= j < k ==> (#[trigger] items@[j])@ == item_text(lines@[j]@),
                decreases lines.len() - k,
            {
                items.push(lines[k].menu_item.to_debug());
                k += 1;
            }
            assert(texts(items@) =~= lines_view(lines@).map_values(
                |line: OrderLineView| item_text(line),
            ));
            let shown = list(&items);
            entries.push(entry(self.orders[i].user.name(), shown.as_str()));
            i += 1;
        }
        assert(texts(entries@) =~= self.listing().map_values(
            |entry: (Seq<char>, Seq<OrderLineView>)| entry_text(entry),
        ));
        State::layout(&entries, self.machine_state)
    }
}

/// A copy of the order lines, line by line.
fn clone_lines(lines: &Vec<OrderLine>) -> (copy: Vec<OrderLine>)
    ensures
        lines_view(copy@) == lines_view(lines@),
{
    let mut copy: Vec<OrderLine> = Vec::new();
    let mut i: usize = 0;
    while i < lines.len()
        invariant
            i <= lines.len(),
            copy@.len() == i,
            forall|j: int| 0 <= j < i ==> (#[trigger] copy@[j])@ == lines@[j]@,
        decreases lines.len() - i,
    {
        copy.push(lines[i].clone());
        i += 1;
    }
    copy
}

impl Clone for State {
    /// A snapshot: the same phase, and the same order lines in the same order.
    fn clone(&self) -> (copy: State)
        ensures
            copy@ == self@,
            copy.listing() == self.listing(),
    {
        proof {
            use_type_invariant(self);
        }
        let mut orders: Vec<Entry> = Vec::new();
        let mut i: usize = 0;
        while i < self.orders.len()
            invariant
                i <= self.orders.len(),
                orders@.len() == i,
                forall|j: int|
                    0 <= j < i ==> (#[trigger] orders@[j]).model() == self.orders@[j].model(),
                forall|j: int| 0 <= j < self.orders@.len() ==> (#[trigger] self.orders@[j]).wf(),
            decreases self.orders.len() - i,
        {
            let lines = clone_lines(&self.orders[i].lines);
            let user = self.orders[i].user.clone();
            orders.push(Entry { user, lines });
            i += 1;
        }
        proof {
            assert(orders@.map_values(|entry: Entry| entry.model()) =~= self.listing());
            assert forall|j: int| 0 <= j < orders@.len() implies (#[trigger] orders@[j]).wf() by {
                let ours = orders@[j];
                let theirs = self.orders@[j];
                assert(lines_view(ours.lines@).len() == lines_view(theirs.lines@).len());
                assert forall|k: int| 0 <= k < ours.lines@.len() implies (
                #[trigger] ours.lines@[k]).user@ == ours.user@ by {
                    assert(lines_view(ours.lines@)[k] == lines_view(theirs.lines@)[k]);
                }
            }
        }
        State { orders, machine_state: self.machine_state }
    }
}

} // verus!
