//! Actions of the action manager.
pub mod systemd;

use crate::action_manager::actions::systemd::SystemdAction;
use crate::command::CommandLine;
use vstd::prelude::*;

verus! {

/// One step of a managed task.
#[derive(PartialEq, Eq, Debug)]
pub enum Action {
    SystemD(SystemdAction),
}

impl Action {
    /// How the action is described to the user.
    pub open spec fn spec_display(&self) -> Seq<char> {
        match self {
            Action::SystemD(a) => a.spec_display(),
        }
    }

    /// The command that applies the action.
    pub open spec fn spec_command(&self) -> (Seq<char>, Seq<Seq<char>>) {
        match self {
            Action::SystemD(a) => a.spec_command(),
        }
    }

    /// Whether the action needs root.
    pub open spec fn spec_needs_elevation(&self) -> bool {
        match self {
            Action::SystemD(a) => a.spec_needs_elevation(),
        }
    }

    /// How the action is described to the user.
    pub fn to_display_string(&self) -> (r: String)
        ensures
            r@ == self.spec_display(),
    {
        match self {
            Action::SystemD(a) => a.to_display_string(),
        }
    }

    /// The command that applies the action.
    pub fn get_command(&self) -> (r: CommandLine)
        ensures
            r@ == self.spec_command(),
    {
        match self {
            Action::SystemD(a) => a.get_command(),
        }
    }

    /// Whether the action needs root.
    pub fn needs_elevation(&self) -> (r: bool)
        ensures
            r == self.spec_needs_elevation(),
    {
        match self {
            Action::SystemD(a) => a.needs_elevation(),
        }
    }
}

} // verus!
