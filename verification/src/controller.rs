//! What the card of a device reads of a controller.

use crate::item::ItemState;
use crate::lookup::Named;
use vstd::prelude::*;

verus! {

/// A controller, as the card of a device sees it.
#[derive(Debug, PartialEq, Eq)]
pub struct Controller {
    /// The name of the controller.
    pub name: String,
    /// The state in which the controller is shown.
    pub state: ItemState,
    /// The HTML of the button that leads to the controller.
    pub button: String,
}

/// What a controller says.
pub struct ControllerView {
    pub name: Seq<char>,
    pub state: ItemState,
    pub button: Seq<char>,
}

impl View for Controller {
    type V = ControllerView;

    open spec fn view(&self) -> ControllerView {
        ControllerView { name: self.name@, state: self.state, button: self.button@ }
    }
}

impl Named for Controller {
    open spec fn name_view(&self) -> Seq<char> {
        self.name@
    }

    fn name(&self) -> (r: &str) {
        self.name.as_str()
    }
}

impl Controller {
    /// Make controller button
    pub fn button_html(&self) -> (r: String)
        ensures
            r@ == self@.button,
    {
        self.button.clone()
    }

    /// Get item state
    pub fn item_state(&self) -> (r: ItemState)
        ensures
            r == self@.state,
    {
        self.state
    }
}

} // verus!
