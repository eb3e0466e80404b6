use crate::text::{decimal, decimal_text, quote, quoted};
use vstd::prelude::*;
use vstd::string::*;

verus! {

/// An item of a menu, referenced by an order line.
///
/// The price is in the minor unit of the currency.
#[derive(Debug, Eq, Hash)]
pub struct MenuItem {
    pub id: i32,
    pub short_name: String,
    pub name: String,
    pub price: i32,
}

/// What a [`MenuItem`] holds, as mathematical values.
pub struct MenuItemView {
    pub id: int,
    pub short_name: Seq<char>,
    pub name: Seq<char>,
    pub price: int,
}

impl View for MenuItem {
    type V = MenuItemView;

    open spec fn view(&self) -> MenuItemView {
        MenuItemView {
            id: self.id as int,
            short_name: self.short_name@,
            name: self.name@,
            price: self.price as int,
        }
    }
}

/// How a menu item is shown for debugging, given its two names as they are
/// to be shown.
pub open spec fn menu_item_layout(
    id: int,
    short_name: Seq<char>,
    name: Seq<char>,
    price: int,
) -> Seq<char> {
    "MenuItem { id: "@ + decimal_text(id) + ", short_name: "@ + short_name + ", name: "@ + name
        + ", price: "@ + decimal_text(price) + " }"@
}

impl MenuItem {
    /// The debug text of a menu item with the given numbers, and with the
    /// given texts in the places of the two names.
    pub fn layout(id: i32, short_name: &str, name: &str, price: i32) -> (text: String)
        ensures
            text@ == menu_item_layout(id as int, short_name@, name@, price as int),
    {
        let mut text = "MenuItem { id: ".to_owned();
        let id_text = decimal(id as i64);
        text.append(id_text.as_str());
        text.append(", short_name: ");
        text.append(short_name);
        text.append(", name: ");
        text.append(name);
        text.append(", price: ");
        let price_text = decimal(price as i64);
        text.append(price_text.as_str());
        text.append(" }");
        text
    }

    /// The debug text of this menu item: its fields by name, the two names
    /// quoted.
    pub fn to_debug(&self) -> (text: String)
        ensures
            text@ == menu_item_layout(
                self@.id,
                quoted(self@.short_name),
                quoted(self@.name),
                self@.price,
            ),
    {
        let short_name = quote(self.short_name.as_str());
        let name = quote(self.name.as_str());
        MenuItem::layout(self.id, short_name.as_str(), name.as_str(), self.price)
    }
}

impl Clone for MenuItem {
    fn clone(&self) -> (copy: MenuItem)
        ensures
            copy@ == self@,
    {
        MenuItem {
            id: self.id,
            short_name: self.short_name.clone(),
            name: self.name.clone(),
            price: self.price,
        }
    }
}

impl PartialEq for MenuItem {
    fn eq(&self, other: &MenuItem) -> (same: bool) {
        self.id == other.id && self.short_name == other.short_name && self.name == other.name
            && self.price == other.price
    }
}

impl vstd::std_specs::cmp::PartialEqSpecImpl for MenuItem {
    open spec fn obeys_eq_spec() -> bool {
        true
    }

    open spec fn eq_spec(&self, other: &MenuItem) -> bool {
        self@ == other@
    }
}

} // verus!
