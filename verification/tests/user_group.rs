use app_core::action_state::ActionState;
use app_core::user_group::{GroupStatusError, UserGroupAction};
use app_core::user_context::UserExecutionContext;

const USER: &str = "tester";

fn user_context() -> UserExecutionContext {
    UserExecutionContext::new(1000, USER, "/home/tester", "/run/user/1000", "unix:path=/run/user/1000/bus")
}

fn add_action() -> UserGroupAction {
    UserGroupAction::Add {
        group: "developers".to_string(),
        create_if_missing: Some(true),
        fail_allowed: Some(false),
    }
}

fn remove_action() -> UserGroupAction {
    UserGroupAction::Remove {
        group: "developers".to_string(),
        fail_allowed: Some(false),
    }
}

fn command_args(action: &UserGroupAction) -> Vec<String> {
    let user_context = user_context();

    action.get_command(&user_context).args
}

#[test]
fn add_command() {
    assert_eq!(command_args(&add_action()), vec!["--append", "--groups", "developers", USER]);
}

#[test]
fn remove_command() {
    assert_eq!(command_args(&remove_action()), vec!["--delete", USER, "developers"]);
}

#[test]
fn add_needs_elevation() {
    assert!(add_action().needs_elevation());
}

#[test]
fn remove_needs_elevation() {
    assert!(remove_action().needs_elevation());
}

#[test]
fn add_is_not_fail_allowed() {
    assert!(!add_action().fail_allowed());
}

#[test]
fn remove_is_not_fail_allowed() {
    assert!(!remove_action().fail_allowed());
}

#[test]
fn add_undoes_to_remove() {
    assert_eq!(
        add_action().to_undo(),
        UserGroupAction::Remove {
            group: "developers".to_string(),
            fail_allowed: Some(false),
        }
    );
}

#[test]
fn remove_undoes_to_add_without_group_creation() {
    assert_eq!(
        remove_action().to_undo(),
        UserGroupAction::Add {
            group: "developers".to_string(),
            create_if_missing: Some(false),
            fail_allowed: Some(false),
        }
    );
}

#[test]
fn add_undo_command_is_remove() {
    let user_context = user_context();

    let command = add_action().to_undo().get_command(&user_context);

    assert_eq!(command.args, vec!["--delete", USER, "developers"]);
}

#[test]
fn remove_undo_command_is_add() {
    let user_context = user_context();

    let command = remove_action().to_undo().get_command(&user_context);

    assert_eq!(command.args, vec!["--append", "--groups", "developers", USER]);
}

#[test]
fn add_action_describes_itself() {
    let action = UserGroupAction::Add {
        group: "developers".to_string(),
        create_if_missing: Some(true),
        fail_allowed: Some(false),
    };

    assert_eq!(action.to_display_string(), "Add user to group developers");
    assert!(!action.fail_allowed());
}

#[test]
fn remove_action_describes_itself() {
    let action = UserGroupAction::Remove {
        group: "developers".to_string(),
        fail_allowed: Some(true),
    };

    assert_eq!(action.to_display_string(), "Remove user from group developers");
    assert!(action.fail_allowed());
}

#[test]
fn group_status_reads_membership_from_lookups() {
    let ctx = user_context();
    let id_out = "1000 10 1001\n";
    let getent_out = "developers:x:1001:tester\n";

    assert_eq!(
        add_action().get_status(&ctx, true, id_out, "", true, getent_out).unwrap(),
        ActionState::Done
    );
    assert_eq!(
        remove_action().get_status(&ctx, true, id_out, "", true, getent_out).unwrap(),
        ActionState::Available
    );
    // Not a member: 1002 is not in the list (10 is, but only as a whole word).
    let other_group = "developers:x:100:\n";
    assert_eq!(
        add_action().get_status(&ctx, true, id_out, "", true, other_group).unwrap(),
        ActionState::Available
    );
    // The group does not exist.
    assert_eq!(
        remove_action().get_status(&ctx, true, id_out, "", false, "").unwrap(),
        ActionState::Done
    );
}

#[test]
fn group_status_errors() {
    let ctx = user_context();
    match add_action().get_status(&ctx, false, "", "id: 'tester': no such user\n", true, "") {
        Err(GroupStatusError::GroupsUnknown { user, stderr }) => {
            assert_eq!(user, USER);
            assert_eq!(stderr, "id: 'tester': no such user");
        }
        other => panic!("unexpected {other:?}"),
    }
    match add_action().get_status(&ctx, true, "1000", "", true, "developers:x") {
        Err(GroupStatusError::InvalidGroupEntry { group }) => assert_eq!(group, "developers"),
        other => panic!("unexpected {other:?}"),
    }
}

#[test]
fn failed_addition_creates_a_missing_group() {
    let add = add_action();
    let check = add.group_check_command().unwrap();
    assert_eq!(check.program, "getent");
    assert_eq!(check.args, vec!["group", "developers"]);
    let create = add.on_error(Some(false)).unwrap();
    assert_eq!(create.program, "groupadd");
    assert_eq!(create.args, vec!["developers"]);
    assert!(add.on_error(Some(true)).is_none());
    assert!(add.on_error(None).is_none());

    let no_create = remove_action().to_undo();
    assert!(no_create.group_check_command().is_none());
    assert!(no_create.on_error(Some(false)).is_none());
    assert!(remove_action().on_error(Some(false)).is_none());
}

#[test]
fn user_group_display_strings() {
    assert_eq!(add_action().to_display_string(), "Add user to group developers");
    assert_eq!(remove_action().to_display_string(), "Remove user from group developers");
}
