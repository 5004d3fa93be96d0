//! A breakfast order: the toast is the guest's choice, the seasonal fruit is
//! the kitchen's.
use vstd::prelude::*;

verus! {

/// A breakfast: toast that the guest picks and may change, and a seasonal
/// fruit that the kitchen picks and the guest cannot see.
pub struct Breakfast {
    pub toast: String,
    seasonal_fruit: String,
}

impl Breakfast {
    /// The toast ordered.
    pub closed spec fn toast_text(&self) -> Seq<char> {
        self.toast@
    }

    /// The fruit that comes with the meal.
    pub closed spec fn fruit(&self) -> Seq<char> {
        self.seasonal_fruit@
    }

    /// A summer breakfast with the given toast; its fruit is an apple.
    pub fn summer(toast: &str) -> (r: Breakfast)
        ensures
            r.toast_text() == toast@,
            r.fruit() == "Apple"@,
    {
        Breakfast { toast: toast.to_owned(), seasonal_fruit: "Apple".to_owned() }
    }
}

} // verus!
