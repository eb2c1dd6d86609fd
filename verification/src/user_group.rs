//! Adding the user to a group and removing the user from it.
use crate::action_state::ActionState;
use crate::command::CommandLine;
use crate::systemd::flag;
use crate::text::{
    chars_of, contains_chars_item, owned, push_str, split_fields, split_on, split_words,
    string_of, trim, trim_chars, views, words,
};
use crate::user_context::UserExecutionContext;
use vstd::prelude::*;

verus! {

/// Membership of the context's user in a group. Adding may first create a
/// missing group (`create_if_missing`, default on).
#[derive(PartialEq, Eq, Debug)]
pub enum UserGroupAction {
    Add { group: String, create_if_missing: Option<bool>, fail_allowed: Option<bool> },
    Remove { group: String, fail_allowed: Option<bool> },
}

/// Why the group state could not be found.
#[derive(Debug)]
pub enum GroupStatusError {
    /// `id --groups` failed for the user; its error output, trimmed.
    GroupsUnknown { user: String, stderr: String },
    /// The group database entry has no group id field.
    InvalidGroupEntry { group: String },
}

/// Whether the user is in the group, from the output of `id --groups <user>`
/// and of `getent group <group>` (and whether the latter found the group);
/// `None` when the group entry has no third, group-id field.
pub open spec fn spec_membership(
    id_output: Seq<char>,
    group_found: bool,
    getent_output: Seq<char>,
) -> Option<bool> {
    if !group_found {
        Some(false)
    } else {
        let fields = split_fields(trim(getent_output), ':');
        if fields.len() > 2 {
            Some(words(trim(id_output)).contains(fields[2]))
        } else {
            None
        }
    }
}

impl Clone for UserGroupAction {
    fn clone(&self) -> (r: Self)
        ensures
            r == *self,
    {
        match self {
            UserGroupAction::Add { group, create_if_missing, fail_allowed } => UserGroupAction::Add {
                group: group.clone(),
                create_if_missing: *create_if_missing,
                fail_allowed: *fail_allowed,
            },
            UserGroupAction::Remove { group, fail_allowed } => UserGroupAction::Remove {
                group: group.clone(),
                fail_allowed: *fail_allowed,
            },
        }
    }
}

impl UserGroupAction {
    pub open spec fn spec_group(self) -> String {
        match self {
            UserGroupAction::Add { group, .. } => group,
            UserGroupAction::Remove { group, .. } => group,
        }
    }

    pub open spec fn spec_fail_allowed(self) -> Option<bool> {
        match self {
            UserGroupAction::Add { fail_allowed, .. } => fail_allowed,
            UserGroupAction::Remove { fail_allowed, .. } => fail_allowed,
        }
    }

    /// How the action is described to the user.
    pub open spec fn spec_display(self) -> Seq<char> {
        match self {
            UserGroupAction::Add { group, .. } => "Add user to group "@ + group@,
            UserGroupAction::Remove { group, .. } => "Remove user from group "@ + group@,
        }
    }

    /// The command that applies the action for `user`:
    /// `usermod --append --groups <group> <user>` or `gpasswd --delete <user> <group>`.
    pub open spec fn spec_command(self, user: Seq<char>) -> (Seq<char>, Seq<Seq<char>>) {
        match self {
            UserGroupAction::Add { group, .. } => (
                "usermod"@,
                seq!["--append"@, "--groups"@, group@, user],
            ),
            UserGroupAction::Remove { group, .. } => (
                "gpasswd"@,
                seq!["--delete"@, user, group@],
            ),
        }
    }

    /// The action that reverts this one. Undoing a removal adds the user
    /// back without creating the group.
    pub open spec fn spec_undo(self) -> UserGroupAction {
        match self {
            UserGroupAction::Add { group, fail_allowed, .. } => UserGroupAction::Remove {
                group,
                fail_allowed,
            },
            UserGroupAction::Remove { group, fail_allowed } => UserGroupAction::Add {
                group,
                create_if_missing: Some(false),
                fail_allowed,
            },
        }
    }

    /// Whether a failed addition is followed by a check that the group exists.
    pub open spec fn spec_creates_group(self) -> bool {
        match self {
            UserGroupAction::Add { create_if_missing, .. } => flag(create_if_missing, true),
            UserGroupAction::Remove { .. } => false,
        }
    }

    /// How the action is described to the user.
    pub fn to_display_string(&self) -> (r: String)
        ensures
            r@ == self.spec_display(),
    {
        match self {
            UserGroupAction::Add { group, .. } => {
                let mut r = owned("Add user to group ");
                push_str(&mut r, group.as_str());
                r
            },
            UserGroupAction::Remove { group, .. } => {
                let mut r = owned("Remove user from group ");
                push_str(&mut r, group.as_str());
                r
            },
        }
    }

    /// The command that applies the action for the context's user.
    pub fn get_command(&self, user_context: &UserExecutionContext) -> (r: CommandLine)
        ensures
            r@ == self.spec_command(user_context@.1),
    {
        let user = user_context.user_name();
        match self {
            UserGroupAction::Add { group, .. } => {
                let mut command = CommandLine::new("usermod");
                command.arg_str("--append");
                command.arg_str("--groups");
                command.arg(group.clone());
                command.arg(user.clone());
                assert(command@.1 =~= self.spec_command(user_context@.1).1);
                command
            },
            UserGroupAction::Remove { group, .. } => {
                let mut command = CommandLine::new("gpasswd");
                command.arg_str("--delete");
                command.arg(user.clone());
                command.arg(group.clone());
                assert(command@.1 =~= self.spec_command(user_context@.1).1);
                command
            },
        }
    }

    /// Changing group membership always needs root.
    pub fn needs_elevation(&self) -> (r: bool)
        ensures
            r,
    {
        true
    }

    /// Whether a runner may go on after this action failed.
    pub fn fail_allowed(&self) -> (r: bool)
        ensures
            r == flag(self.spec_fail_allowed(), false),
    {
        match self {
            UserGroupAction::Add { fail_allowed, .. }
            | UserGroupAction::Remove { fail_allowed, .. } => match fail_allowed {
                Some(b) => *b,
                None => false,
            },
        }
    }

    /// The action that reverts this one.
    pub fn to_undo(&self) -> (r: Self)
        ensures
            r == self.spec_undo(),
    {
        match self.clone() {
            UserGroupAction::Add { group, fail_allowed, .. } => UserGroupAction::Remove {
                group,
                fail_allowed,
            },
            UserGroupAction::Remove { group, fail_allowed } => UserGroupAction::Add {
                group,
                create_if_missing: Some(false),
                fail_allowed,
            },
        }
    }

    /// The command that lists the user's group ids: `id --groups <user>`.
    pub fn get_groups_command(user_context: &UserExecutionContext) -> (r: CommandLine)
        ensures
            r@ == ("id"@, seq!["--groups"@, user_context@.1]),
    {
        let mut command = CommandLine::new("id");
        command.arg_str("--groups");
        command.arg(user_context.user_name().clone());
        assert(command@.1 =~= seq!["--groups"@, user_context@.1]);
        command
    }

    /// The command that looks the group up: `getent group <group>`; it fails
    /// when there is no such group.
    pub fn get_group_command(&self) -> (r: CommandLine)
        ensures
            r@ == ("getent"@, seq!["group"@, self.spec_group()@]),
    {
        let group = match self {
            UserGroupAction::Add { group, .. } | UserGroupAction::Remove { group, .. } => group,
        };
        let mut command = CommandLine::new("getent");
        command.arg_str("group");
        command.arg(group.clone());
        assert(command@.1 =~= seq!["group"@, self.spec_group()@]);
        command
    }

    /// The action's state from the two lookups: whether `id --groups`
    /// succeeded and what it printed, and whether `getent group` succeeded
    /// and what it printed. Adding is done when the user is a member and
    /// available otherwise; removing the reverse.
    pub fn get_status(
        &self,
        user_context: &UserExecutionContext,
        id_succeeded: bool,
        id_stdout: &str,
        id_stderr: &str,
        getent_succeeded: bool,
        getent_stdout: &str,
    ) -> (r: Result<ActionState, GroupStatusError>)
        ensures
            !id_succeeded ==> (r matches Err(GroupStatusError::GroupsUnknown { user, stderr })
                && user@ == user_context@.1 && stderr@ == trim(id_stderr@)),
            id_succeeded ==> match spec_membership(id_stdout@, getent_succeeded, getent_stdout@) {
                None => (r matches Err(GroupStatusError::InvalidGroupEntry { group })
                    && group@ == self.spec_group()@),
                Some(member) => r is Ok && r->Ok_0 == (match self {
                    UserGroupAction::Add { .. } => if member {
                        ActionState::Done
                    } else {
                        ActionState::Available
                    },
                    UserGroupAction::Remove { .. } => if member {
                        ActionState::Available
                    } else {
                        ActionState::Done
                    },
                }),
            },
    {
        if !id_succeeded {
            let err = trim_chars(&chars_of(id_stderr));
            return Err(
                GroupStatusError::GroupsUnknown {
                    user: user_context.user_name().clone(),
                    stderr: string_of(&err),
                },
            );
        }
        let group = match self {
            UserGroupAction::Add { group, .. } | UserGroupAction::Remove { group, .. } => group,
        };
        let is_member = if getent_succeeded {
            let entry = trim_chars(&chars_of(getent_stdout));
            let fields = split_on(&entry, ':');
            if fields.len() <= 2 {
                return Err(GroupStatusError::InvalidGroupEntry { group: group.clone() });
            }
            let groups = trim_chars(&chars_of(id_stdout));
            let ws = split_words(&groups);
            assert(views(fields@)[2] == fields@[2]@);
            contains_chars_item(&ws, &fields[2])
        } else {
            false
        };
        match self {
            UserGroupAction::Add { .. } => if is_member {
                Ok(ActionState::Done)
            } else {
                Ok(ActionState::Available)
            },
            UserGroupAction::Remove { .. } => if is_member {
                Ok(ActionState::Available)
            } else {
                Ok(ActionState::Done)
            },
        }
    }

    /// The check to run after a failed addition that may create the group:
    /// `getent group <group>`; `None` when no recovery is attempted.
    pub fn group_check_command(&self) -> (r: Option<CommandLine>)
        ensures
            r is Some == self.spec_creates_group(),
            r is Some ==> r->Some_0@ == ("getent"@, seq!["group"@, self.spec_group()@]),
    {
        match self {
            UserGroupAction::Add { create_if_missing, .. } => {
                let create = match create_if_missing {
                    Some(b) => *b,
                    None => true,
                };
                if create {
                    Some(self.get_group_command())
                } else {
                    None
                }
            },
            UserGroupAction::Remove { .. } => None,
        }
    }

    /// The command to run after a failure before retrying, given what the
    /// group check found (`None` when it could not be run): `groupadd
    /// <group>` when the action may create the group and the group does not
    /// exist; otherwise nothing.
    pub fn on_error(&self, group_exists: Option<bool>) -> (r: Option<CommandLine>)
        ensures
            r is Some == (self.spec_creates_group() && group_exists == Some(false)),
            r is Some ==> r->Some_0@ == ("groupadd"@, seq![self.spec_group()@]),
    {
        match self {
            UserGroupAction::Add { group, create_if_missing, .. } => {
                let create = match create_if_missing {
                    Some(b) => *b,
                    None => true,
                };
                if !create {
                    return None;
                }
                match group_exists {
                    Some(false) => {
                        let mut command = CommandLine::new("groupadd");
                        command.arg(group.clone());
                        assert(command@.1 =~= seq![self.spec_group()@]);
                        Some(command)
                    },
                    _ => None,
                }
            },
            UserGroupAction::Remove { .. } => None,
        }
    }
}

} // verus!
