//! Enabling and disabling systemd units, and reading back their state.
use crate::action_state::ActionState;
use crate::command::CommandLine;
use crate::text::{owned, push_str, trim, trim_str};
use vstd::prelude::*;

verus! {

/// The systemd instance a unit belongs to.
#[derive(PartialEq, Eq, Structural, Clone, Copy, Debug)]
pub enum Scope {
    System,
    User,
}

impl Scope {
    /// The lower-case name of the scope.
    pub open spec fn spec_name(self) -> Seq<char> {
        match self {
            Scope::System => "system"@,
            Scope::User => "user"@,
        }
    }

    /// The `systemctl` option that selects the scope.
    pub open spec fn spec_arg(self) -> Seq<char> {
        "--"@ + self.spec_name()
    }

    /// The lower-case name of the scope, as it is displayed.
    pub fn to_display_string(&self) -> (r: String)
        ensures
            r@ == self.spec_name(),
    {
        match self {
            Scope::System => owned("system"),
            Scope::User => owned("user"),
        }
    }

    /// The `systemctl` option for the scope: `--system` or `--user`.
    pub fn to_arg(&self) -> (r: String)
        ensures
            r@ == self.spec_arg(),
    {
        let mut r = owned("--");
        let name = self.to_display_string();
        push_str(&mut r, name.as_str());
        r
    }
}

/// Enabling or disabling one systemd unit. `now` (default on) also starts or
/// stops the unit; `fail_allowed` (default off) lets a runner go on after
/// this action failed.
#[derive(PartialEq, Eq, Debug)]
pub enum SystemdAction {
    Enable { unit: String, scope: Scope, now: Option<bool>, fail_allowed: Option<bool> },
    Disable { unit: String, scope: Scope, now: Option<bool>, fail_allowed: Option<bool> },
}

impl Clone for SystemdAction {
    fn clone(&self) -> (r: Self)
        ensures
            r == *self,
    {
        match self {
            SystemdAction::Enable { unit, scope, now, fail_allowed } => SystemdAction::Enable {
                unit: unit.clone(),
                scope: *scope,
                now: *now,
                fail_allowed: *fail_allowed,
            },
            SystemdAction::Disable { unit, scope, now, fail_allowed } => SystemdAction::Disable {
                unit: unit.clone(),
                scope: *scope,
                now: *now,
                fail_allowed: *fail_allowed,
            },
        }
    }
}

/// Whether an optional flag is set, given its default.
pub open spec fn flag(value: Option<bool>, default: bool) -> bool {
    match value {
        Some(b) => b,
        None => default,
    }
}

impl SystemdAction {
    pub open spec fn spec_unit(self) -> String {
        match self {
            SystemdAction::Enable { unit, .. } => unit,
            SystemdAction::Disable { unit, .. } => unit,
        }
    }

    pub open spec fn spec_scope(self) -> Scope {
        match self {
            SystemdAction::Enable { scope, .. } => scope,
            SystemdAction::Disable { scope, .. } => scope,
        }
    }

    pub open spec fn spec_now(self) -> Option<bool> {
        match self {
            SystemdAction::Enable { now, .. } => now,
            SystemdAction::Disable { now, .. } => now,
        }
    }

    pub open spec fn spec_fail_allowed(self) -> Option<bool> {
        match self {
            SystemdAction::Enable { fail_allowed, .. } => fail_allowed,
            SystemdAction::Disable { fail_allowed, .. } => fail_allowed,
        }
    }

    /// The `systemctl` verb of the action.
    pub open spec fn spec_verb(self) -> Seq<char> {
        match self {
            SystemdAction::Enable { .. } => "enable"@,
            SystemdAction::Disable { .. } => "disable"@,
        }
    }

    /// How the action is described to the user.
    pub open spec fn spec_display(self) -> Seq<char> {
        "Systemd "@ + self.spec_verb() + " "@ + self.spec_scope().spec_name() + " unit: "@
            + self.spec_unit()@
    }

    /// The command that applies the action:
    /// `systemctl --<scope> enable|disable [--now] <unit>`.
    pub open spec fn spec_command(self) -> (Seq<char>, Seq<Seq<char>>) {
        (
            "systemctl"@,
            seq![self.spec_scope().spec_arg(), self.spec_verb()] + (if flag(
                self.spec_now(),
                true,
            ) {
                seq!["--now"@]
            } else {
                Seq::empty()
            }) + seq![self.spec_unit()@],
        )
    }

    /// Whether the action needs root: units of the system scope do.
    pub open spec fn spec_needs_elevation(self) -> bool {
        self.spec_scope() == Scope::System
    }

    /// The action that reverts this one: enable and disable swap, all else stays.
    pub open spec fn spec_undo(self) -> SystemdAction {
        match self {
            SystemdAction::Enable { unit, scope, now, fail_allowed } => SystemdAction::Disable {
                unit,
                scope,
                now,
                fail_allowed,
            },
            SystemdAction::Disable { unit, scope, now, fail_allowed } => SystemdAction::Enable {
                unit,
                scope,
                now,
                fail_allowed,
            },
        }
    }

    /// How the action is described to the user.
    pub fn to_display_string(&self) -> (r: String)
        ensures
            r@ == self.spec_display(),
    {
        let (verb, unit, scope) = match self {
            SystemdAction::Enable { unit, scope, .. } => ("enable", unit, scope),
            SystemdAction::Disable { unit, scope, .. } => ("disable", unit, scope),
        };
        let mut r = owned("Systemd ");
        push_str(&mut r, verb);
        push_str(&mut r, " ");
        let s = scope.to_display_string();
        push_str(&mut r, s.as_str());
        push_str(&mut r, " unit: ");
        push_str(&mut r, unit.as_str());
        assert(r@ =~= self.spec_display());
        r
    }

    /// The command that applies the action.
    pub fn get_command(&self) -> (r: CommandLine)
        ensures
            r@ == self.spec_command(),
    {
        let (verb, unit, scope, now) = match self {
            SystemdAction::Enable { unit, scope, now, .. } => ("enable", unit, scope, now),
            SystemdAction::Disable { unit, scope, now, .. } => ("disable", unit, scope, now),
        };
        let mut command = CommandLine::new("systemctl");
        command.arg(scope.to_arg());
        command.arg_str(verb);
        let with_now = match now {
            Some(b) => *b,
            None => true,
        };
        if with_now {
            command.arg_str("--now");
        }
        command.arg(unit.clone());
        assert(command@.1 =~= self.spec_command().1);
        command
    }

    /// Whether the action needs root.
    pub fn needs_elevation(&self) -> (r: bool)
        ensures
            r == self.spec_needs_elevation(),
    {
        match self {
            SystemdAction::Enable { scope, .. } | SystemdAction::Disable { scope, .. } => {
                match scope {
                    Scope::System => true,
                    Scope::User => false,
                }
            },
        }
    }

    /// Whether a runner may go on after this action failed.
    pub fn fail_allowed(&self) -> (r: bool)
        ensures
            r == flag(self.spec_fail_allowed(), false),
    {
        match self {
            SystemdAction::Enable { fail_allowed, .. }
            | SystemdAction::Disable { fail_allowed, .. } => match fail_allowed {
                Some(b) => *b,
                None => false,
            },
        }
    }

    /// The action that reverts this one.
    pub fn to_undo(&self) -> (r: Self)
        ensures
            r == self.spec_undo(),
    {
        match self.clone() {
            SystemdAction::Enable { unit, scope, now, fail_allowed } => SystemdAction::Disable {
                unit,
                scope,
                now,
                fail_allowed,
            },
            SystemdAction::Disable { unit, scope, now, fail_allowed } => SystemdAction::Enable {
                unit,
                scope,
                now,
                fail_allowed,
            },
        }
    }

    /// The command to run after a failure before retrying: systemd actions have none.
    pub fn on_error(&self) -> (r: Option<CommandLine>)
        ensures
            r is None,
    {
        None
    }

    /// The command that reports the unit's state: `systemctl --<scope> is-enabled <unit>`.
    pub fn get_check_command(&self) -> (r: CommandLine)
        ensures
            r@ == ("systemctl"@, seq![self.spec_scope().spec_arg(), "is-enabled"@, self.spec_unit()@]),
    {
        let (unit, scope) = match self {
            SystemdAction::Enable { unit, scope, .. } => (unit, scope),
            SystemdAction::Disable { unit, scope, .. } => (unit, scope),
        };
        let mut command = CommandLine::new("systemctl");
        command.arg(scope.to_arg());
        command.arg_str("is-enabled");
        command.arg(unit.clone());
        assert(command@.1 =~= seq![self.spec_scope().spec_arg(), "is-enabled"@, self.spec_unit()@]);
        command
    }

    /// The command that prints the name an alias unit stands for:
    /// `systemctl --<scope> show --property=Id --value <unit>`.
    pub fn get_alias_command(&self) -> (r: CommandLine)
        ensures
            r@ == (
                "systemctl"@,
                seq![
                    self.spec_scope().spec_arg(),
                    "show"@,
                    "--property=Id"@,
                    "--value"@,
                    self.spec_unit()@,
                ],
            ),
    {
        let (unit, scope) = match self {
            SystemdAction::Enable { unit, scope, .. } => (unit, scope),
            SystemdAction::Disable { unit, scope, .. } => (unit, scope),
        };
        let mut command = CommandLine::new("systemctl");
        command.arg(scope.to_arg());
        command.arg_str("show");
        command.arg_str("--property=Id");
        command.arg_str("--value");
        command.arg(unit.clone());
        assert(command@.1 =~= seq![
            self.spec_scope().spec_arg(),
            "show"@,
            "--property=Id"@,
            "--value"@,
            self.spec_unit()@,
        ]);
        command
    }

    /// The same action for another unit: what an alias resolves to. The
    /// name is what the alias command printed, without surrounding whitespace.
    pub fn with_resolved_unit(&self, printed: &str) -> (r: Self)
        ensures
            r.spec_unit()@ == trim(printed@),
            r.spec_scope() == self.spec_scope(),
            r.spec_now() == self.spec_now(),
            r.spec_fail_allowed() == self.spec_fail_allowed(),
            r.spec_verb() == self.spec_verb(),
    {
        let unit = trim_str(printed);
        match self {
            SystemdAction::Enable { scope, now, fail_allowed, .. } => SystemdAction::Enable {
                unit,
                scope: *scope,
                now: *now,
                fail_allowed: *fail_allowed,
            },
            SystemdAction::Disable { scope, now, fail_allowed, .. } => SystemdAction::Disable {
                unit,
                scope: *scope,
                now: *now,
                fail_allowed: *fail_allowed,
            },
        }
    }
}

impl SystemdAction {
    /// The step after following this action's unit as an alias at `depth`
    /// (what a `ResolveAlias { depth }` step asks for). `lookup` is what the
    /// alias command printed when it ran and exited successfully, `None`
    /// otherwise; `answer` is the `is-enabled` report about the unit it
    /// printed, `None` when that could not be had or read. Without either
    /// the action is unavailable; otherwise the report decides, for the
    /// action on the resolved unit, at `depth`. The resolved action is
    /// returned with the step (the action itself when the lookup failed).
    pub fn after_alias_lookup(
        &self,
        depth: u32,
        lookup: Option<&str>,
        answer: Option<IsEnabledOutput>,
    ) -> (r: (SystemdAction, StatusStep))
        ensures
            match lookup {
                None => r.0 == *self && r.1 == StatusStep::Resolved(ActionState::UnAvailable),
                Some(out) => {
                    &&& r.0.spec_unit()@ == trim(out@)
                    &&& r.0.spec_scope() == self.spec_scope()
                    &&& r.0.spec_now() == self.spec_now()
                    &&& r.0.spec_fail_allowed() == self.spec_fail_allowed()
                    &&& r.0.spec_verb() == self.spec_verb()
                    &&& r.1 == match answer {
                        None => StatusStep::Resolved(ActionState::UnAvailable),
                        Some(o) => o.spec_to_action_state(r.0, Some(depth)),
                    }
                },
            },
    {
        match lookup {
            None => (self.clone(), StatusStep::Resolved(ActionState::UnAvailable)),
            Some(out) => {
                let resolved = self.with_resolved_unit(out);
                let step = match answer {
                    None => StatusStep::Resolved(ActionState::UnAvailable),
                    Some(o) => o.to_action_state(&resolved, Some(depth)),
                };
                (resolved, step)
            },
        }
    }
}

/// What `systemctl is-enabled` reports about a unit.
#[derive(PartialEq, Eq, Structural, Clone, Copy, Debug)]
pub enum IsEnabledOutput {
    /// Will start at boot (has proper symlinks)
    Enabled,
    /// Enabled, but only until next reboot
    EnabledRuntime,
    /// Not enabled
    Disabled,
    /// Not found
    NotFound,
    /// Completely blocked (cannot be started at all)
    Masked,
    /// Masked until next reboot
    MaskedRuntime,
    /// Has no [Install] section; can't be enabled directly (only pulled in as a dependency)
    Static,
    /// Not enabled itself, but referenced by another unit's install config
    Indirect,
    /// This name is just an alias of another unit
    Alias,
    /// Unit file is symlinked from outside standard directories
    Linked,
    /// Same as above, but temporary
    LinkedRuntime,
    /// Created dynamically by systemd generators at boot
    Generated,
    /// Created at runtime (e.g. via systemd-run)
    Transient,
    /// Invalid or broken unit file
    Bad,
}

/// The deepest chain of aliases that is followed.
pub const MAX_ALIAS_DEPTH: u32 = 10;

/// The next step in finding an action's state from `is-enabled` output.
#[derive(PartialEq, Eq, Structural, Clone, Copy, Debug)]
pub enum StatusStep {
    /// The state is known.
    Resolved(ActionState),
    /// Too many aliases were followed: the action is unavailable.
    MaxDepthReached,
    /// The unit is an alias: resolve it, query the resolved unit, and ask
    /// again at the given depth.
    ResolveAlias { depth: u32 },
}

impl StatusStep {
    /// The state this step settles on, if it settles.
    pub open spec fn spec_action_state(self) -> Option<ActionState> {
        match self {
            StatusStep::Resolved(s) => Some(s),
            StatusStep::MaxDepthReached => Some(ActionState::UnAvailable),
            StatusStep::ResolveAlias { .. } => None,
        }
    }

    /// The state this step settles on, if it settles.
    pub fn action_state(&self) -> (r: Option<ActionState>)
        ensures
            r == self.spec_action_state(),
    {
        match self {
            StatusStep::Resolved(s) => Some(*s),
            StatusStep::MaxDepthReached => Some(ActionState::UnAvailable),
            StatusStep::ResolveAlias { .. } => None,
        }
    }

    /// Whether alias resolution gave up at the depth limit.
    pub fn reached_max_depth(&self) -> (r: bool)
        ensures
            r == (*self is MaxDepthReached),
    {
        match self {
            StatusStep::MaxDepthReached => true,
            _ => false,
        }
    }
}

/// The output could not be read as any `is-enabled` state.
#[derive(Debug)]
pub struct UnrecognizedIsEnabledOutput {
    /// The output, without surrounding whitespace.
    pub output: String,
}

impl IsEnabledOutput {
    /// The word `systemctl is-enabled` prints for the state.
    pub open spec fn spec_name(self) -> Seq<char> {
        match self {
            IsEnabledOutput::Enabled => "enabled"@,
            IsEnabledOutput::EnabledRuntime => "enabled-runtime"@,
            IsEnabledOutput::Disabled => "disabled"@,
            IsEnabledOutput::NotFound => "not-found"@,
            IsEnabledOutput::Masked => "masked"@,
            IsEnabledOutput::MaskedRuntime => "masked-runtime"@,
            IsEnabledOutput::Static => "static"@,
            IsEnabledOutput::Indirect => "indirect"@,
            IsEnabledOutput::Alias => "alias"@,
            IsEnabledOutput::Linked => "linked"@,
            IsEnabledOutput::LinkedRuntime => "linked-runtime"@,
            IsEnabledOutput::Generated => "generated"@,
            IsEnabledOutput::Transient => "transient"@,
            IsEnabledOutput::Bad => "bad"@,
        }
    }

    /// The state named by the (already trimmed) word `t`, if any.
    pub open spec fn spec_from_word(t: Seq<char>) -> Option<IsEnabledOutput> {
        if t == "enabled"@ {
            Some(IsEnabledOutput::Enabled)
        } else if t == "enabled-runtime"@ {
            Some(IsEnabledOutput::EnabledRuntime)
        } else if t == "disabled"@ {
            Some(IsEnabledOutput::Disabled)
        } else if t == "not-found"@ {
            Some(IsEnabledOutput::NotFound)
        } else if t == "masked"@ {
            Some(IsEnabledOutput::Masked)
        } else if t == "masked-runtime"@ {
            Some(IsEnabledOutput::MaskedRuntime)
        } else if t == "static"@ {
            Some(IsEnabledOutput::Static)
        } else if t == "indirect"@ {
            Some(IsEnabledOutput::Indirect)
        } else if t == "alias"@ {
            Some(IsEnabledOutput::Alias)
        } else if t == "linked"@ {
            Some(IsEnabledOutput::Linked)
        } else if t == "linked-runtime"@ {
            Some(IsEnabledOutput::LinkedRuntime)
        } else if t == "generated"@ {
            Some(IsEnabledOutput::Generated)
        } else if t == "transient"@ {
            Some(IsEnabledOutput::Transient)
        } else if t == "bad"@ {
            Some(IsEnabledOutput::Bad)
        } else {
            None
        }
    }

    /// The word for the state.
    pub fn to_display_string(&self) -> (r: String)
        ensures
            r@ == self.spec_name(),
    {
        match self {
            IsEnabledOutput::Enabled => owned("enabled"),
            IsEnabledOutput::EnabledRuntime => owned("enabled-runtime"),
            IsEnabledOutput::Disabled => owned("disabled"),
            IsEnabledOutput::NotFound => owned("not-found"),
            IsEnabledOutput::Masked => owned("masked"),
            IsEnabledOutput::MaskedRuntime => owned("masked-runtime"),
            IsEnabledOutput::Static => owned("static"),
            IsEnabledOutput::Indirect => owned("indirect"),
            IsEnabledOutput::Alias => owned("alias"),
            IsEnabledOutput::Linked => owned("linked"),
            IsEnabledOutput::LinkedRuntime => owned("linked-runtime"),
            IsEnabledOutput::Generated => owned("generated"),
            IsEnabledOutput::Transient => owned("transient"),
            IsEnabledOutput::Bad => owned("bad"),
        }
    }

    /// Reads the output of `systemctl is-enabled`: the word it printed, with
    /// surrounding whitespace ignored.
    pub fn from_str(s: &str) -> (r: Result<IsEnabledOutput, UnrecognizedIsEnabledOutput>)
        ensures
            match Self::spec_from_word(trim(s@)) {
                Some(o) => r == Ok::<IsEnabledOutput, UnrecognizedIsEnabledOutput>(o),
                None => r is Err && r->Err_0.output@ == trim(s@),
            },
    {
        let t = trim_str(s);
        if t == owned("enabled") {
            Ok(IsEnabledOutput::Enabled)
        } else if t == owned("enabled-runtime") {
            Ok(IsEnabledOutput::EnabledRuntime)
        } else if t == owned("disabled") {
            Ok(IsEnabledOutput::Disabled)
        } else if t == owned("not-found") {
            Ok(IsEnabledOutput::NotFound)
        } else if t == owned("masked") {
            Ok(IsEnabledOutput::Masked)
        } else if t == owned("masked-runtime") {
            Ok(IsEnabledOutput::MaskedRuntime)
        } else if t == owned("static") {
            Ok(IsEnabledOutput::Static)
        } else if t == owned("indirect") {
            Ok(IsEnabledOutput::Indirect)
        } else if t == owned("alias") {
            Ok(IsEnabledOutput::Alias)
        } else if t == owned("linked") {
            Ok(IsEnabledOutput::Linked)
        } else if t == owned("linked-runtime") {
            Ok(IsEnabledOutput::LinkedRuntime)
        } else if t == owned("generated") {
            Ok(IsEnabledOutput::Generated)
        } else if t == owned("transient") {
            Ok(IsEnabledOutput::Transient)
        } else if t == owned("bad") {
            Ok(IsEnabledOutput::Bad)
        } else {
            Err(UnrecognizedIsEnabledOutput { output: t })
        }
    }

    /// What following an alias at `depth` (counted from 0) leads to.
    pub open spec fn spec_alias_step(depth: Option<u32>) -> StatusStep {
        let d = match depth {
            Some(d) => d,
            None => 0u32,
        };
        if d > MAX_ALIAS_DEPTH {
            StatusStep::MaxDepthReached
        } else {
            StatusStep::ResolveAlias { depth: (d + 1) as u32 }
        }
    }

    /// The state of `action` given this report about its unit: enabling is
    /// done for an enabled unit and available for a disabled one; disabling
    /// the reverse; an alias is followed; anything else is unavailable.
    pub open spec fn spec_to_action_state(
        self,
        action: SystemdAction,
        depth: Option<u32>,
    ) -> StatusStep {
        match action {
            SystemdAction::Enable { .. } => match self {
                IsEnabledOutput::Enabled => StatusStep::Resolved(ActionState::Done),
                IsEnabledOutput::Disabled => StatusStep::Resolved(ActionState::Available),
                IsEnabledOutput::Alias => Self::spec_alias_step(depth),
                _ => StatusStep::Resolved(ActionState::UnAvailable),
            },
            SystemdAction::Disable { .. } => match self {
                IsEnabledOutput::Enabled => StatusStep::Resolved(ActionState::Available),
                IsEnabledOutput::Disabled => StatusStep::Resolved(ActionState::Done),
                IsEnabledOutput::Alias => Self::spec_alias_step(depth),
                _ => StatusStep::Resolved(ActionState::UnAvailable),
            },
        }
    }

    fn alias_step(recursive_depth: Option<u32>) -> (r: StatusStep)
        ensures
            r == Self::spec_alias_step(recursive_depth),
    {
        let depth = match recursive_depth {
            Some(d) => d,
            None => 0,
        };
        if depth > MAX_ALIAS_DEPTH {
            StatusStep::MaxDepthReached
        } else {
            StatusStep::ResolveAlias { depth: depth + 1 }
        }
    }

    /// The next step in finding `action`'s state from this report.
    pub fn to_action_state(&self, action: &SystemdAction, recursive_depth: Option<u32>) -> (r:
        StatusStep)
        ensures
            r == self.spec_to_action_state(*action, recursive_depth),
    {
        match action {
            SystemdAction::Enable { .. } => match self {
                IsEnabledOutput::Enabled => StatusStep::Resolved(ActionState::Done),
                IsEnabledOutput::Disabled => StatusStep::Resolved(ActionState::Available),
                IsEnabledOutput::Alias => Self::alias_step(recursive_depth),
                _ => StatusStep::Resolved(ActionState::UnAvailable),
            },
            SystemdAction::Disable { .. } => match self {
                IsEnabledOutput::Enabled => StatusStep::Resolved(ActionState::Available),
                IsEnabledOutput::Disabled => StatusStep::Resolved(ActionState::Done),
                IsEnabledOutput::Alias => Self::alias_step(recursive_depth),
                _ => StatusStep::Resolved(ActionState::UnAvailable),
            },
        }
    }
}

} // verus!
