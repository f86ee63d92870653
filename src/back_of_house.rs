use vstd::prelude::*;

verus! {

/// A breakfast order: the customer picks the toast, the kitchen picks the
/// seasonal fruit, which the customer can neither see nor change.
pub struct Breakfast {
    pub toast: String,
    seasonal_fruit: String,
}

/// The fruit that comes with a summer breakfast.
pub open spec fn summer_fruit() -> Seq<char> {
    "peaches"@
}

impl Breakfast {
    /// The toast of this breakfast.
    pub closed spec fn toast_choice(&self) -> Seq<char> {
        self.toast@
    }

    /// The fruit that comes with this breakfast.
    pub closed spec fn fruit(&self) -> Seq<char> {
        self.seasonal_fruit@
    }

    /// Returns a summer breakfast with the given toast, served with peaches.
    pub fn summer(toast: &str) -> (r: Breakfast)
        ensures
            r.toast_choice() == toast@,
            r.fruit() == summer_fruit(),
    {
        Breakfast { toast: toast.to_string(), seasonal_fruit: "peaches".to_string() }
    }
}

/// A starter on the menu.
#[derive(Clone, Copy, Debug, PartialEq, Eq, Structural)]
pub enum Appetizer {
    Soup,
    Salad,
}

} // verus!
