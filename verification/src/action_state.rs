//! The state of an action on the running system.
use crate::text::owned;
use vstd::prelude::*;

verus! {

/// Whether an action's effect is already in place, could be applied, or
/// cannot be applied.
#[derive(PartialEq, Eq, Structural, Clone, Copy, Debug)]
pub enum ActionState {
    Done,
    Available,
    UnAvailable,
}

impl Default for ActionState {
    /// An action whose state is not known is unavailable.
    fn default() -> (r: Self)
        ensures
            r == ActionState::UnAvailable,
    {
        ActionState::UnAvailable
    }
}

impl ActionState {
    /// The lower-case name of the state, as it is displayed.
    pub open spec fn spec_name(self) -> Seq<char> {
        match self {
            ActionState::Done => "done"@,
            ActionState::Available => "available"@,
            ActionState::UnAvailable => "unavailable"@,
        }
    }

    /// The lower-case name of the state.
    pub fn to_display_string(&self) -> (r: String)
        ensures
            r@ == self.spec_name(),
    {
        match self {
            ActionState::Done => owned("done"),
            ActionState::Available => owned("available"),
            ActionState::UnAvailable => owned("unavailable"),
        }
    }
}

} // verus!
