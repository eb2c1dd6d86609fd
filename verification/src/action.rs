//! The actions a runner can execute, and what they share.
use crate::command::CommandLine;
use crate::rpm_ostree::{RpmOstreeAction, RpmOstreeActionView};
use crate::systemd::{flag, SystemdAction};
use crate::text::{
    list_token, opt_flag_token, opt_list_token, push_list_token, push_opt_flag_token, push_token,
    token,
};
use crate::user_context::UserExecutionContext;
use vstd::prelude::*;

verus! {

/// One step of a runner.
#[derive(PartialEq, Eq, Debug)]
pub enum Action {
    SystemD(SystemdAction),
    RpmOstree(RpmOstreeAction),
}

/// The plain content of an action.
pub enum ActionView {
    SystemD(SystemdAction),
    RpmOstree(RpmOstreeActionView),
}

impl View for Action {
    type V = ActionView;

    open spec fn view(&self) -> ActionView {
        match self {
            Action::SystemD(a) => ActionView::SystemD(*a),
            Action::RpmOstree(a) => ActionView::RpmOstree(a@),
        }
    }
}

/// The key of a systemd action (see `ActionView::key`).
pub open spec fn systemd_key(a: SystemdAction) -> Seq<char> {
    token("systemd"@) + token(a.spec_verb()) + token(a.spec_unit()@) + token(
        a.spec_scope().spec_name(),
    ) + opt_flag_token(a.spec_now()) + opt_flag_token(a.spec_fail_allowed())
}

/// The key of an rpm-ostree action (see `ActionView::key`).
pub open spec fn rpm_ostree_key(a: RpmOstreeActionView) -> Seq<char> {
    match a {
        RpmOstreeActionView::Install { packages, fail_allowed } => token("rpmostree"@) + token(
            "install"@,
        ) + opt_flag_token(fail_allowed) + list_token(packages),
        RpmOstreeActionView::Remove { packages, fail_allowed } => token("rpmostree"@) + token(
            "remove"@,
        ) + opt_flag_token(fail_allowed) + list_token(packages),
        RpmOstreeActionView::Kargs { add, remove } => token("rpmostree"@) + token("kargs"@)
            + opt_list_token(add) + opt_list_token(remove),
    }
}

impl ActionView {
    /// How the action is described to the user.
    pub open spec fn display(self) -> Seq<char> {
        match self {
            ActionView::SystemD(a) => a.spec_display(),
            ActionView::RpmOstree(a) => a.display(),
        }
    }

    /// The command that applies the action when run for `user`.
    pub open spec fn command(self, user: Seq<char>) -> (Seq<char>, Seq<Seq<char>>) {
        match self {
            ActionView::SystemD(a) => a.spec_command(),
            ActionView::RpmOstree(a) => a.command(),
        }
    }

    /// Whether the action needs root.
    pub open spec fn needs_elevation(self) -> bool {
        match self {
            ActionView::SystemD(a) => a.spec_needs_elevation(),
            ActionView::RpmOstree(a) => a.needs_elevation(),
        }
    }

    /// Whether a runner may go on after this action failed.
    pub open spec fn fail_allowed(self) -> bool {
        match self {
            ActionView::SystemD(a) => flag(a.spec_fail_allowed(), false),
            ActionView::RpmOstree(a) => flag(a.fail_allowed(), false),
        }
    }

    /// The action that reverts this one.
    pub open spec fn undo(self) -> ActionView {
        match self {
            ActionView::SystemD(a) => ActionView::SystemD(a.spec_undo()),
            ActionView::RpmOstree(a) => ActionView::RpmOstree(a.undo()),
        }
    }

    /// A text that holds every field of the action, written as length-prefixed
    /// tokens; the identity of a runner is computed from it.
    pub open spec fn key(self) -> Seq<char> {
        match self {
            ActionView::SystemD(a) => systemd_key(a),
            ActionView::RpmOstree(a) => rpm_ostree_key(a),
        }
    }
}

impl Clone for Action {
    fn clone(&self) -> (r: Self)
        ensures
            r@ == self@,
    {
        match self {
            Action::SystemD(a) => Action::SystemD(a.clone()),
            Action::RpmOstree(a) => Action::RpmOstree(a.clone()),
        }
    }
}

impl Action {
    /// How the action is described to the user.
    pub fn to_display_string(&self) -> (r: String)
        ensures
            r@ == self@.display(),
    {
        match self {
            Action::SystemD(a) => a.to_display_string(),
            Action::RpmOstree(a) => a.to_display_string(),
        }
    }

    /// The command that applies the action for the context's user.
    pub fn get_command(&self, user_context: &UserExecutionContext) -> (r: CommandLine)
        ensures
            r@ == self@.command(user_context@.1),
    {
        match self {
            Action::SystemD(a) => a.get_command(),
            Action::RpmOstree(a) => a.get_command(),
        }
    }

    /// Whether the action needs root.
    pub fn needs_elevation(&self) -> (r: bool)
        ensures
            r == self@.needs_elevation(),
    {
        match self {
            Action::SystemD(a) => a.needs_elevation(),
            Action::RpmOstree(a) => a.needs_elevation(),
        }
    }

    /// Whether a runner may go on after this action failed.
    pub fn fail_allowed(&self) -> (r: bool)
        ensures
            r == self@.fail_allowed(),
    {
        match self {
            Action::SystemD(a) => a.fail_allowed(),
            Action::RpmOstree(a) => a.fail_allowed(),
        }
    }

    /// The action that reverts this one.
    pub fn to_undo(&self) -> (r: Self)
        ensures
            r@ == self@.undo(),
    {
        match self {
            Action::SystemD(a) => Action::SystemD(a.to_undo()),
            Action::RpmOstree(a) => Action::RpmOstree(a.to_undo()),
        }
    }

    /// Appends the action's key.
    pub fn push_key(&self, out: &mut String)
        ensures
            final(out)@ == old(out)@ + self@.key(),
    {
        match self {
            Action::SystemD(a) => push_systemd_key(a, out),
            Action::RpmOstree(a) => push_rpm_ostree_key(a, out),
        }
    }
}

fn push_systemd_key(a: &SystemdAction, out: &mut String)
    ensures
        final(out)@ == old(out)@ + systemd_key(*a),
{
    let (verb, unit, scope, now, fail_allowed) = match a {
        SystemdAction::Enable { unit, scope, now, fail_allowed } => (
            "enable",
            unit,
            scope,
            now,
            fail_allowed,
        ),
        SystemdAction::Disable { unit, scope, now, fail_allowed } => (
            "disable",
            unit,
            scope,
            now,
            fail_allowed,
        ),
    };
    let ghost o0 = out@;
    push_token(out, "systemd");
    push_token(out, verb);
    push_token(out, unit.as_str());
    let s = scope.to_display_string();
    push_token(out, s.as_str());
    push_opt_flag_token(out, *now);
    push_opt_flag_token(out, *fail_allowed);
    assert(out@ =~= o0 + systemd_key(*a));
}

fn push_opt_list_token(out: &mut String, o: &Option<Vec<String>>)
    ensures
        final(out)@ == old(out)@ + opt_list_token(crate::rpm_ostree::opt_views(*o)),
{
    match o {
        None => push_token(out, "-"),
        Some(items) => {
            push_token(out, "+");
            push_list_token(out, items);
            assert(out@ =~= old(out)@ + opt_list_token(crate::rpm_ostree::opt_views(*o)));
        },
    }
}

fn push_rpm_ostree_key(a: &RpmOstreeAction, out: &mut String)
    ensures
        final(out)@ == old(out)@ + rpm_ostree_key(a@),
{
    let ghost o0 = out@;
    push_token(out, "rpmostree");
    match a {
        RpmOstreeAction::Install { packages, fail_allowed } => {
            push_token(out, "install");
            push_opt_flag_token(out, *fail_allowed);
            push_list_token(out, packages);
        },
        RpmOstreeAction::Remove { packages, fail_allowed } => {
            push_token(out, "remove");
            push_opt_flag_token(out, *fail_allowed);
            push_list_token(out, packages);
        },
        RpmOstreeAction::Kargs { add, remove } => {
            push_token(out, "kargs");
            push_opt_list_token(out, add);
            push_opt_list_token(out, remove);
        },
    }
    assert(out@ =~= o0 + rpm_ostree_key(a@));
}

} // verus!
