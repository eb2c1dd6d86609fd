//! Layering packages with rpm-ostree and editing kernel arguments.
use crate::action_state::ActionState;
use crate::command::CommandLine;
use crate::dbus_query::{DbusConnectionType, DbusPropertyQuery};
use crate::systemd::flag;
use crate::text::{
    chars_of, contains_chars, contains_sub, join, join_strings, owned, push_str, string_views,
};
use vstd::prelude::*;

verus! {

/// An rpm-ostree change: layering packages, removing layered packages, or
/// adding and deleting kernel arguments.
#[derive(PartialEq, Eq, Debug)]
pub enum RpmOstreeAction {
    Install { packages: Vec<String>, fail_allowed: Option<bool> },
    Remove { packages: Vec<String>, fail_allowed: Option<bool> },
    Kargs { add: Option<Vec<String>>, remove: Option<Vec<String>> },
}

/// A copy of a list of strings.
pub fn copy_strings(v: &Vec<String>) -> (r: Vec<String>)
    ensures
        r@ == v@,
{
    let mut r: Vec<String> = Vec::new();
    let mut i: usize = 0;
    while i < v.len()
        invariant
            i <= v.len(),
            r@ == v@.take(i as int),
        decreases v.len() - i,
    {
        r.push(v[i].clone());
        assert(r@ =~= v@.take(i + 1));
        i = i + 1;
    }
    assert(r@ =~= v@);
    r
}

/// A copy of an optional list of strings.
pub fn copy_opt_strings(v: &Option<Vec<String>>) -> (r: Option<Vec<String>>)
    ensures
        r is Some == v is Some,
        r is Some ==> r->Some_0@ == v->Some_0@,
{
    match v {
        Some(x) => Some(copy_strings(x)),
        None => None,
    }
}

/// The views of an optional list of strings.
pub open spec fn opt_views(v: Option<Vec<String>>) -> Option<Seq<Seq<char>>> {
    match v {
        Some(x) => Some(string_views(x@)),
        None => None,
    }
}

/// `prefix` followed by each element of `items`.
pub open spec fn prefixed(prefix: Seq<char>, items: Seq<Seq<char>>) -> Seq<Seq<char>> {
    items.map_values(|k: Seq<char>| prefix + k)
}

/// Whether the kernel command line `current` already has every argument of
/// `add` and none of `remove`, each compared as a substring.
pub open spec fn kargs_in_place(
    add: Option<Seq<Seq<char>>>,
    remove: Option<Seq<Seq<char>>>,
    current: Seq<char>,
) -> bool {
    let add_needed = match add {
        Some(a) => exists|i: int| 0 <= i < a.len() && contains_sub(current, #[trigger] a[i]) == false,
        None => false,
    };
    let remove_needed = match remove {
        Some(r) => exists|i: int| 0 <= i < r.len() && contains_sub(current, #[trigger] r[i]) == true,
        None => false,
    };
    !(add_needed || remove_needed)
}

/// What the state checks of an rpm-ostree action found.
#[derive(Debug)]
pub struct RpmStatus {
    /// The packages to layer are installed (true when not checked).
    pub installed: bool,
    /// The packages to remove are gone (true when not checked).
    pub removed: bool,
    /// The kernel arguments are as wanted (true when not checked).
    pub kargs: bool,
}

impl RpmStatus {
    /// Done when every check holds, available when none does, else unavailable.
    pub open spec fn spec_action_state(&self) -> ActionState {
        if self.installed && self.removed && self.kargs {
            ActionState::Done
        } else if !self.installed && !self.removed && !self.kargs {
            ActionState::Available
        } else {
            ActionState::UnAvailable
        }
    }

    /// The state of the action these checks were made for.
    pub fn to_action_state(&self) -> (r: ActionState)
        ensures
            r == self.spec_action_state(),
    {
        match (self.installed, self.removed, self.kargs) {
            (true, true, true) => ActionState::Done,
            (false, false, false) => ActionState::Available,
            _ => ActionState::UnAvailable,
        }
    }
}

/// The kernel-argument check: the command that prints the current
/// arguments and what the action wants added and removed.
#[derive(Debug)]
pub struct KargsCommand {
    pub command: CommandLine,
    pub add: Option<Vec<String>>,
    pub remove: Option<Vec<String>>,
}

/// The checks that find an rpm-ostree action's state; each is present only
/// for the kind of action it concerns.
#[derive(Debug)]
pub struct RpmCommands {
    pub install: Option<CommandLine>,
    pub remove: Option<CommandLine>,
    pub kargs: Option<KargsCommand>,
}

impl RpmCommands {
    /// What the checks found, given what running them gave: whether the
    /// install check succeeded, whether the removal check succeeded, and the
    /// output of the kernel-argument command. Each outcome is `None` when its
    /// check was not run; a check not run counts as holding.
    pub open spec fn spec_status(
        &self,
        install_succeeded: Option<bool>,
        remove_succeeded: Option<bool>,
        kargs_output: Option<Seq<char>>,
    ) -> (bool, bool, bool) {
        (
            flag(install_succeeded, true),
            match remove_succeeded {
                Some(ok) => !ok,
                None => true,
            },
            match (self.kargs, kargs_output) {
                (Some(k), Some(out)) => kargs_in_place(opt_views(k.add), opt_views(k.remove), out),
                _ => true,
            },
        )
    }

    /// What the checks found, given what running them gave (see `spec_status`).
    pub fn get_status(
        &self,
        install_succeeded: Option<bool>,
        remove_succeeded: Option<bool>,
        kargs_output: Option<&str>,
    ) -> (r: RpmStatus)
        ensures
            (r.installed, r.removed, r.kargs) == self.spec_status(
                install_succeeded,
                remove_succeeded,
                match kargs_output {
                    Some(s) => Some(s@),
                    None => None,
                },
            ),
    {
        let installed = match install_succeeded {
            Some(ok) => ok,
            None => true,
        };
        let removed = match remove_succeeded {
            Some(ok) => !ok,
            None => true,
        };
        let kargs = match (&self.kargs, kargs_output) {
            (Some(k), Some(out)) => kargs_hold(&k.add, &k.remove, out),
            _ => true,
        };
        RpmStatus { installed, removed, kargs }
    }
}

/// Whether some element of `items` is (or, with `want_present` false, is not)
/// a substring of `current`.
fn any_substring(items: &Vec<String>, current: &Vec<char>, want_present: bool) -> (r: bool)
    ensures
        r == exists|i: int|
            0 <= i < items@.len() && contains_sub(current@, #[trigger] string_views(items@)[i])
                == want_present,
{
    let mut i: usize = 0;
    while i < items.len()
        invariant
            i <= items.len(),
            forall|j: int|
                0 <= j < i ==> contains_sub(current@, #[trigger] string_views(items@)[j])
                    != want_present,
        decreases items.len() - i,
    {
        let k = chars_of(items[i].as_str());
        if contains_chars(current, &k) == want_present {
            assert(string_views(items@)[i as int] == k@);
            return true;
        }
        assert(string_views(items@)[i as int] == k@);
        i = i + 1;
    }
    false
}

fn kargs_hold(add: &Option<Vec<String>>, remove: &Option<Vec<String>>, current: &str) -> (r:
    bool)
    ensures
        r == kargs_in_place(opt_views(*add), opt_views(*remove), current@),
{
    let cs = chars_of(current);
    let add_needed = match add {
        Some(a) => any_substring(a, &cs, false),
        None => false,
    };
    let remove_needed = match remove {
        Some(rm) => any_substring(rm, &cs, true),
        None => false,
    };
    proof {
        let av = opt_views(*add);
        let rv = opt_views(*remove);
        let add_spec = match av {
            Some(a) => exists|i: int| 0 <= i < a.len() && contains_sub(current@, #[trigger] a[i]) == false,
            None => false,
        };
        let rem_spec = match rv {
            Some(r) => exists|i: int| 0 <= i < r.len() && contains_sub(current@, #[trigger] r[i]) == true,
            None => false,
        };
        assert(add_needed == add_spec);
        assert(remove_needed == rem_spec);
    }
    proof {
        let av = opt_views(*add);
        let rv = opt_views(*remove);
        let add_spec = match av {
            Some(a) => exists|i: int| 0 <= i < a.len() && contains_sub(cs@, #[trigger] a[i]) == false,
            None => false,
        };
        let rem_spec = match rv {
            Some(r) => exists|i: int| 0 <= i < r.len() && contains_sub(cs@, #[trigger] r[i]) == true,
            None => false,
        };
        assert(add_needed == add_spec);
        assert(remove_needed == rem_spec);
    }
    !(add_needed || remove_needed)
}

/// Appends `prefix` + `item` for each item as arguments.
fn push_prefixed(command: &mut CommandLine, prefix: &str, items: &Vec<String>)
    ensures
        final(command)@ == (old(command)@.0, old(command)@.1 + prefixed(prefix@, string_views(items@))),
{
    let mut i: usize = 0;
    while i < items.len()
        invariant
            i <= items.len(),
            command@ == (old(command)@.0, old(command)@.1 + prefixed(prefix@, string_views(items@).take(i as int))),
        decreases items.len() - i,
    {
        let mut a = owned(prefix);
        push_str(&mut a, items[i].as_str());
        command.arg(a);
        assert(prefixed(prefix@, string_views(items@).take(i + 1)) =~= prefixed(prefix@, string_views(items@).take(i as int)).push(prefix@ + items@[i as int]@));
        i = i + 1;
    }
    assert(string_views(items@).take(items.len() as int) =~= string_views(items@));
}

/// The plain content of an rpm-ostree action.
pub enum RpmOstreeActionView {
    Install { packages: Seq<Seq<char>>, fail_allowed: Option<bool> },
    Remove { packages: Seq<Seq<char>>, fail_allowed: Option<bool> },
    Kargs { add: Option<Seq<Seq<char>>>, remove: Option<Seq<Seq<char>>> },
}

impl View for RpmOstreeAction {
    type V = RpmOstreeActionView;

    open spec fn view(&self) -> RpmOstreeActionView {
        match self {
            RpmOstreeAction::Install { packages, fail_allowed } => RpmOstreeActionView::Install {
                packages: string_views(packages@),
                fail_allowed: *fail_allowed,
            },
            RpmOstreeAction::Remove { packages, fail_allowed } => RpmOstreeActionView::Remove {
                packages: string_views(packages@),
                fail_allowed: *fail_allowed,
            },
            RpmOstreeAction::Kargs { add, remove } => RpmOstreeActionView::Kargs {
                add: opt_views(*add),
                remove: opt_views(*remove),
            },
        }
    }
}

impl Clone for RpmOstreeAction {
    fn clone(&self) -> (r: Self)
        ensures
            r@ == self@,
    {
        match self {
            RpmOstreeAction::Install { packages, fail_allowed } => RpmOstreeAction::Install {
                packages: copy_strings(packages),
                fail_allowed: *fail_allowed,
            },
            RpmOstreeAction::Remove { packages, fail_allowed } => RpmOstreeAction::Remove {
                packages: copy_strings(packages),
                fail_allowed: *fail_allowed,
            },
            RpmOstreeAction::Kargs { add, remove } => RpmOstreeAction::Kargs {
                add: copy_opt_strings(add),
                remove: copy_opt_strings(remove),
            },
        }
    }
}

impl RpmOstreeActionView {
    /// The packages of an install or removal (empty for kernel arguments).
    pub open spec fn packages(self) -> Seq<Seq<char>> {
        match self {
            RpmOstreeActionView::Install { packages, .. } => packages,
            RpmOstreeActionView::Remove { packages, .. } => packages,
            RpmOstreeActionView::Kargs { .. } => Seq::empty(),
        }
    }

    pub open spec fn fail_allowed(self) -> Option<bool> {
        match self {
            RpmOstreeActionView::Install { fail_allowed, .. } => fail_allowed,
            RpmOstreeActionView::Remove { fail_allowed, .. } => fail_allowed,
            RpmOstreeActionView::Kargs { .. } => None,
        }
    }

    /// The kernel arguments to add (for kernel-argument actions).
    pub open spec fn add(self) -> Option<Seq<Seq<char>>> {
        match self {
            RpmOstreeActionView::Kargs { add, .. } => add,
            _ => None,
        }
    }

    /// The kernel arguments to delete (for kernel-argument actions).
    pub open spec fn remove(self) -> Option<Seq<Seq<char>>> {
        match self {
            RpmOstreeActionView::Kargs { remove, .. } => remove,
            _ => None,
        }
    }

    /// How the action is described to the user.
    pub open spec fn display(self) -> Seq<char> {
        match self {
            RpmOstreeActionView::Install { packages, .. } => "Rpm Ostree installing: "@ + join(
                packages,
                ","@,
            ) + "."@,
            RpmOstreeActionView::Remove { packages, .. } => "Rpm Ostree removing: "@ + join(
                packages,
                ","@,
            ) + "."@,
            RpmOstreeActionView::Kargs { add, remove } => (match remove {
                Some(r) => "Rpm Ostree removing kargs: "@ + join(r, " "@) + "\n"@,
                None => Seq::empty(),
            }) + (match add {
                Some(a) => "Rpm Ostree adding kargs: "@ + join(a, " "@),
                None => Seq::empty(),
            }),
        }
    }

    /// The command that applies the action: `rpm-ostree install|remove
    /// <packages joined by spaces, as one argument>`, or `rpm-ostree kargs`
    /// with `--append-if-missing=<arg>` for each argument to add and
    /// `--delete-if-present=<arg>` for each to delete.
    pub open spec fn command(self) -> (Seq<char>, Seq<Seq<char>>) {
        match self {
            RpmOstreeActionView::Install { packages, .. } => (
                "rpm-ostree"@,
                seq!["install"@, join(packages, " "@)],
            ),
            RpmOstreeActionView::Remove { packages, .. } => (
                "rpm-ostree"@,
                seq!["remove"@, join(packages, " "@)],
            ),
            RpmOstreeActionView::Kargs { add, remove } => (
                "rpm-ostree"@,
                seq!["kargs"@] + (match add {
                    Some(a) => prefixed("--append-if-missing="@, a),
                    None => Seq::empty(),
                }) + (match remove {
                    Some(r) => prefixed("--delete-if-present="@, r),
                    None => Seq::empty(),
                }),
            ),
        }
    }

    /// Only kernel-argument changes need root.
    pub open spec fn needs_elevation(self) -> bool {
        self is Kargs
    }

    /// The action that reverts this one: install and remove swap, the
    /// kernel arguments to add and to delete swap.
    pub open spec fn undo(self) -> RpmOstreeActionView {
        match self {
            RpmOstreeActionView::Install { packages, fail_allowed } => RpmOstreeActionView::Remove {
                packages,
                fail_allowed,
            },
            RpmOstreeActionView::Remove { packages, fail_allowed } => RpmOstreeActionView::Install {
                packages,
                fail_allowed,
            },
            RpmOstreeActionView::Kargs { add, remove } => RpmOstreeActionView::Kargs {
                add: remove,
                remove: add,
            },
        }
    }
}

impl RpmOstreeAction {
    /// How the action is described to the user.
    pub fn to_display_string(&self) -> (r: String)
        ensures
            r@ == self@.display(),
    {
        match self {
            RpmOstreeAction::Install { packages, .. } => {
                let mut r = owned("Rpm Ostree installing: ");
                let j = join_strings(packages, ",");
                push_str(&mut r, j.as_str());
                push_str(&mut r, ".");
                r
            },
            RpmOstreeAction::Remove { packages, .. } => {
                let mut r = owned("Rpm Ostree removing: ");
                let j = join_strings(packages, ",");
                push_str(&mut r, j.as_str());
                push_str(&mut r, ".");
                r
            },
            RpmOstreeAction::Kargs { add, remove } => {
                let mut r = String::new();
                if let Some(remove) = remove {
                    push_str(&mut r, "Rpm Ostree removing kargs: ");
                    let j = join_strings(remove, " ");
                    push_str(&mut r, j.as_str());
                    push_str(&mut r, "\n");
                }
                let ghost mid = r@;
                if let Some(add) = add {
                    push_str(&mut r, "Rpm Ostree adding kargs: ");
                    let j = join_strings(add, " ");
                    push_str(&mut r, j.as_str());
                }
                assert(r@ =~= self@.display());
                r
            },
        }
    }

    /// The command that applies the action.
    pub fn get_command(&self) -> (r: CommandLine)
        ensures
            r@ == self@.command(),
    {
        match self {
            RpmOstreeAction::Install { packages, .. } => {
                let mut command = CommandLine::new("rpm-ostree");
                command.arg_str("install");
                command.arg(join_strings(packages, " "));
                assert(command@.1 =~= self@.command().1);
                command
            },
            RpmOstreeAction::Remove { packages, .. } => {
                let mut command = CommandLine::new("rpm-ostree");
                command.arg_str("remove");
                command.arg(join_strings(packages, " "));
                assert(command@.1 =~= self@.command().1);
                command
            },
            RpmOstreeAction::Kargs { add, remove } => {
                let mut command = CommandLine::new("rpm-ostree");
                command.arg_str("kargs");
                let ghost c0 = command@;
                if let Some(add) = add {
                    push_prefixed(&mut command, "--append-if-missing=", add);
                }
                let ghost c1 = command@;
                if let Some(remove) = remove {
                    push_prefixed(&mut command, "--delete-if-present=", remove);
                }
                assert(command@.1 =~= self@.command().1);
                command
            },
        }
    }

    /// Whether the action needs root.
    pub fn needs_elevation(&self) -> (r: bool)
        ensures
            r == self@.needs_elevation(),
    {
        match self {
            RpmOstreeAction::Install { .. } | RpmOstreeAction::Remove { .. } => false,
            RpmOstreeAction::Kargs { .. } => true,
        }
    }

    /// Whether a runner may go on after this action failed.
    pub fn fail_allowed(&self) -> (r: bool)
        ensures
            r == flag(self@.fail_allowed(), false),
    {
        match self {
            RpmOstreeAction::Install { fail_allowed, .. }
            | RpmOstreeAction::Remove { fail_allowed, .. } => match fail_allowed {
                Some(b) => *b,
                None => false,
            },
            RpmOstreeAction::Kargs { .. } => false,
        }
    }

    /// The action that reverts this one.
    pub fn to_undo(&self) -> (r: Self)
        ensures
            r@ == self@.undo(),
    {
        match self.clone() {
            RpmOstreeAction::Install { packages, fail_allowed } => RpmOstreeAction::Remove {
                packages,
                fail_allowed,
            },
            RpmOstreeAction::Remove { packages, fail_allowed } => RpmOstreeAction::Install {
                packages,
                fail_allowed,
            },
            RpmOstreeAction::Kargs { add, remove } => RpmOstreeAction::Kargs {
                add: remove,
                remove: add,
            },
        }
    }

    /// The D-Bus query whose answer tells whether rpm-ostree is busy: the
    /// active transaction path of its system-bus sysroot object.
    pub fn idle_query() -> (r: DbusPropertyQuery<'static>)
        ensures
            r.connection_type == DbusConnectionType::System,
            r.destination@ == "org.projectatomic.rpmostree1"@,
            r.path@ == "/org/projectatomic/rpmostree1/Sysroot"@,
            r.interface@ == "org.projectatomic.rpmostree1.Sysroot"@,
            r.property@ == "ActiveTransactionPath"@,
    {
        DbusPropertyQuery {
            connection_type: DbusConnectionType::System,
            destination: "org.projectatomic.rpmostree1",
            path: "/org/projectatomic/rpmostree1/Sysroot",
            interface: "org.projectatomic.rpmostree1.Sysroot",
            property: "ActiveTransactionPath",
        }
    }

    /// The command to run after a failure before retrying, given the active
    /// transaction path that `idle_query` read (`None` when it could not be
    /// read): when a transaction is in progress, `rpm-ostree cancel`;
    /// otherwise nothing.
    pub fn on_error(&self, active_transaction_path: Option<&str>) -> (r: Option<CommandLine>)
        ensures
            match active_transaction_path {
                Some(p) if p@.len() > 0 => r is Some && r->Some_0@ == (
                    "rpm-ostree"@,
                    seq!["cancel"@],
                ),
                _ => r is None,
            },
    {
        match active_transaction_path {
            Some(p) => {
                if p.is_empty() {
                    None
                } else {
                    let mut command = CommandLine::new("rpm-ostree");
                    command.arg_str("cancel");
                    assert(command@.1 =~= seq!["cancel"@]);
                    Some(command)
                }
            },
            None => None,
        }
    }

    /// The checks that find the action's state: `rpm -q <packages>` for an
    /// install or removal (it succeeds when they are installed), and
    /// `rpm-ostree kargs` with the wanted changes for kernel arguments.
    pub fn get_check_commands(&self) -> (r: RpmCommands)
        ensures
            match self {
                RpmOstreeAction::Install { .. } => r.install is Some && r.remove is None
                    && r.kargs is None && r.install->Some_0@ == (
                    "rpm"@,
                    seq!["-q"@, join(self@.packages(), " "@)],
                ),
                RpmOstreeAction::Remove { .. } => r.install is None && r.remove is Some
                    && r.kargs is None && r.remove->Some_0@ == (
                    "rpm"@,
                    seq!["-q"@, join(self@.packages(), " "@)],
                ),
                RpmOstreeAction::Kargs { .. } => r.install is None && r.remove is None
                    && r.kargs is Some && r.kargs->Some_0.command@ == (
                    "rpm-ostree"@,
                    seq!["kargs"@],
                ) && opt_views(r.kargs->Some_0.add) == self@.add() && opt_views(
                    r.kargs->Some_0.remove,
                ) == self@.remove(),
            },
    {
        match self {
            RpmOstreeAction::Install { packages, .. } => {
                let mut command = CommandLine::new("rpm");
                command.arg_str("-q");
                command.arg(join_strings(packages, " "));
                assert(command@.1 =~= seq!["-q"@, join(self@.packages(), " "@)]);
                RpmCommands { install: Some(command), remove: None, kargs: None }
            },
            RpmOstreeAction::Remove { packages, .. } => {
                let mut command = CommandLine::new("rpm");
                command.arg_str("-q");
                command.arg(join_strings(packages, " "));
                assert(command@.1 =~= seq!["-q"@, join(self@.packages(), " "@)]);
                RpmCommands { install: None, remove: Some(command), kargs: None }
            },
            RpmOstreeAction::Kargs { add, remove } => {
                let mut command = CommandLine::new("rpm-ostree");
                command.arg_str("kargs");
                assert(command@.1 =~= seq!["kargs"@]);
                let a = copy_opt_strings(add);
                let rm = copy_opt_strings(remove);
                RpmCommands {
                    install: None,
                    remove: None,
                    kargs: Some(KargsCommand { command, add: a, remove: rm }),
                }
            },
        }
    }
}

} // verus!
