//! The views in which a card is shown.

use vstd::prelude::*;

verus! {

/// Card view
#[derive(Clone, Copy, Debug, PartialEq, Eq, Structural)]
pub enum CardView {
    /// Hidden view
    Hidden,
    /// Search view
    Search,
    /// Create view
    Create,
    /// Compact view
    Compact,
    /// Control view
    Control,
    /// Location view
    Location,
    /// Setup view
    Setup,
    /// Status view
    Status,
}

/// What is added to the classes of a card that is not active.
pub open spec fn inactive_attr_text(active: bool) -> Seq<char> {
    if active {
        Seq::empty()
    } else {
        " inactive"@
    }
}

/// Get attribute for inactive cards
pub fn inactive_attr(active: bool) -> (r: &'static str)
    ensures
        r@ == inactive_attr_text(active),
{
    if active {
        proof {
            reveal_strlit("");
            assert(""@ =~= Seq::<char>::empty());
        }
        ""
    } else {
        " inactive"
    }
}

} // verus!
