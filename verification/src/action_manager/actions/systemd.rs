//! Systemd unit actions of the action manager.
use crate::command::CommandLine;
use crate::text::{owned, push_str};
use vstd::prelude::*;

verus! {

/// The systemd instance a unit belongs to.
#[derive(PartialEq, Eq, Structural, Clone, Copy, Debug)]
pub enum Scope {
    System,
    User,
}

impl Scope {
    /// The lower-case name of the scope.
    pub open spec fn spec_name(self) -> Seq<char> {
        match self {
            Scope::System => "system"@,
            Scope::User => "user"@,
        }
    }

    /// The lower-case name of the scope.
    pub fn to_display_string(&self) -> (r: String)
        ensures
            r@ == self.spec_name(),
    {
        match self {
            Scope::System => owned("system"),
            Scope::User => owned("user"),
        }
    }

    /// The `systemctl` option for the scope: `--system` or `--user`.
    pub fn to_arg(&self) -> (r: String)
        ensures
            r@ == "--"@ + self.spec_name(),
    {
        let mut r = owned("--");
        let name = self.to_display_string();
        push_str(&mut r, name.as_str());
        r
    }
}

/// Enabling (and starting) or disabling (and stopping) one unit.
#[derive(PartialEq, Eq, Debug)]
pub enum SystemdAction {
    Enable { unit: String, scope: Scope },
    Disable { unit: String, scope: Scope },
}

impl SystemdAction {
    /// How the action is described to the user:
    /// `Systemd enable|disable <scope> unit: <unit>`.
    pub open spec fn spec_display(&self) -> Seq<char> {
        match self {
            SystemdAction::Enable { unit, scope } => "Systemd enable "@ + scope.spec_name()
                + " unit: "@ + unit@,
            SystemdAction::Disable { unit, scope } => "Systemd disable "@ + scope.spec_name()
                + " unit: "@ + unit@,
        }
    }

    /// The command: `systemctl --<scope> enable|disable --now <unit>`.
    pub open spec fn spec_command(&self) -> (Seq<char>, Seq<Seq<char>>) {
        match self {
            SystemdAction::Enable { unit, scope } => (
                "systemctl"@,
                seq!["--"@ + scope.spec_name(), "enable"@, "--now"@, unit@],
            ),
            SystemdAction::Disable { unit, scope } => (
                "systemctl"@,
                seq!["--"@ + scope.spec_name(), "disable"@, "--now"@, unit@],
            ),
        }
    }

    /// Units of the system scope need root.
    pub open spec fn spec_needs_elevation(&self) -> bool {
        match self {
            SystemdAction::Enable { scope, .. } => *scope == Scope::System,
            SystemdAction::Disable { scope, .. } => *scope == Scope::System,
        }
    }

    /// How the action is described to the user.
    pub fn to_display_string(&self) -> (r: String)
        ensures
            r@ == self.spec_display(),
    {
        let (verb, unit, scope) = match self {
            SystemdAction::Enable { unit, scope } => ("Systemd enable ", unit, scope),
            SystemdAction::Disable { unit, scope } => ("Systemd disable ", unit, scope),
        };
        let mut r = owned(verb);
        let s = scope.to_display_string();
        push_str(&mut r, s.as_str());
        push_str(&mut r, " unit: ");
        push_str(&mut r, unit.as_str());
        assert(r@ =~= self.spec_display());
        r
    }

    /// The command that applies the action.
    pub fn get_command(&self) -> (r: CommandLine)
        ensures
            r@ == self.spec_command(),
    {
        let (verb, unit, scope) = match self {
            SystemdAction::Enable { unit, scope } => ("enable", unit, scope),
            SystemdAction::Disable { unit, scope } => ("disable", unit, scope),
        };
        let mut command = CommandLine::new("systemctl");
        command.arg(scope.to_arg());
        command.arg_str(verb);
        command.arg_str("--now");
        command.arg(unit.clone());
        assert(command@.1 =~= self.spec_command().1);
        command
    }

    /// Whether the action needs root.
    pub fn needs_elevation(&self) -> (r: bool)
        ensures
            r == self.spec_needs_elevation(),
    {
        match self {
            SystemdAction::Enable { scope, .. } | SystemdAction::Disable { scope, .. } => {
                match scope {
                    Scope::System => true,
                    Scope::User => false,
                }
            },
        }
    }
}

} // verus!
