//! Systemd unit actions of the batch runner.
use crate::command::CommandLine;
use crate::text::owned;
use vstd::prelude::*;

verus! {

/// The systemd instance a unit belongs to.
#[derive(PartialEq, Eq, Structural, Clone, Copy, Debug)]
pub enum Scope {
    System,
    User,
}

impl Scope {
    /// The `systemctl` option that selects the scope.
    pub open spec fn spec_arg(self) -> Seq<char> {
        match self {
            Scope::System => "--system"@,
            Scope::User => "--user"@,
        }
    }

    /// The `systemctl` option that selects the scope.
    pub fn to_arg(&self) -> (r: String)
        ensures
            r@ == self.spec_arg(),
    {
        match self {
            Scope::System => owned("--system"),
            Scope::User => owned("--user"),
        }
    }
}

/// Enabling (and starting) or disabling (and stopping) one unit.
#[derive(PartialEq, Eq, Debug)]
pub enum SystemdAction {
    EnableUnit { name: String, scope: Scope },
    DisableUnit { name: String, scope: Scope },
}

impl SystemdAction {
    /// The command: `systemctl --<scope> enable|disable --now <name>`.
    pub open spec fn spec_command(&self) -> (Seq<char>, Seq<Seq<char>>) {
        match self {
            SystemdAction::EnableUnit { name, scope } => (
                "systemctl"@,
                seq![scope.spec_arg(), "enable"@, "--now"@, name@],
            ),
            SystemdAction::DisableUnit { name, scope } => (
                "systemctl"@,
                seq![scope.spec_arg(), "disable"@, "--now"@, name@],
            ),
        }
    }

    /// Units of the system scope need root.
    pub open spec fn spec_needs_elevation(&self) -> bool {
        match self {
            SystemdAction::EnableUnit { scope, .. } => *scope == Scope::System,
            SystemdAction::DisableUnit { scope, .. } => *scope == Scope::System,
        }
    }

    /// The command that applies the action.
    pub fn get_command(&self) -> (r: CommandLine)
        ensures
            r@ == self.spec_command(),
    {
        let (verb, name, scope) = match self {
            SystemdAction::EnableUnit { name, scope } => ("enable", name, scope),
            SystemdAction::DisableUnit { name, scope } => ("disable", name, scope),
        };
        let mut command = CommandLine::new("systemctl");
        command.arg(scope.to_arg());
        command.arg_str(verb);
        command.arg_str("--now");
        command.arg(name.clone());
        assert(command@.1 =~= self.spec_command().1);
        command
    }

    /// Whether the action needs root.
    pub fn needs_elevation(&self) -> (r: bool)
        ensures
            r == self.spec_needs_elevation(),
    {
        match self {
            SystemdAction::EnableUnit { scope, .. } | SystemdAction::DisableUnit { scope, .. } => {
                match scope {
                    Scope::System => true,
                    Scope::User => false,
                }
            },
        }
    }
}

} // verus!
