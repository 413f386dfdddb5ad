//! The states in which an item is shown.

use vstd::prelude::*;

verus! {

/// Item state
#[derive(Clone, Copy, Debug, PartialEq, Eq, Structural)]
pub enum ItemState {
    /// Available for use
    Available,
    /// Communication offline
    Offline,
    /// Inactive (deactivated or removed)
    Inactive,
}

/// The sign by which a state is shown.
pub open spec fn code_text(state: ItemState) -> Seq<char> {
    match state {
        ItemState::Available => "👍"@,
        ItemState::Offline => "🔌"@,
        ItemState::Inactive => "▪️"@,
    }
}

impl ItemState {
    /// Get the item state code
    pub fn code(self) -> (r: &'static str)
        ensures
            r@ == code_text(self),
    {
        match self {
            ItemState::Available => "👍",
            ItemState::Offline => "🔌",
            ItemState::Inactive => "▪️",
        }
    }
}

} // verus!
