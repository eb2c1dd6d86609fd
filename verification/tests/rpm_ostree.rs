use app_core::action_state::ActionState;
use app_core::rpm_ostree::{RpmCommands, RpmOstreeAction, RpmStatus};
use app_core::user_context::UserExecutionContext;

fn user_context() -> UserExecutionContext {
    UserExecutionContext::new(1000, "tester", "/home/tester", "/run/user/1000", "unix:path=/run/user/1000/bus")
}

#[test]
fn rpm_status_maps_to_action_state_correctly() {
    for installed in [false, true] {
        for removed in [false, true] {
            for kargs in [false, true] {
                let expected = match (installed, removed, kargs) {
                    // Only these matches should result in a state other than UnAvailable
                    (true, true, true) => ActionState::Done,
                    (false, false, false) => ActionState::Available,
                    _ => ActionState::UnAvailable,
                };

                assert_eq!(
                    RpmStatus {
                        installed,
                        removed,
                        kargs,
                    }
                    .to_action_state(),
                    expected,
                    "unexpected state for installed={installed}, removed={removed}, kargs={kargs}"
                );
            }
        }
    }
}

#[test]
fn install_action_creates_install_check() {
    let action = RpmOstreeAction::Install {
        packages: Vec::from(["foo".to_string()]),
        fail_allowed: Some(false),
    };

    let commands = action.get_check_commands();

    assert!(commands.install.is_some());
    assert!(commands.remove.is_none());
    assert!(commands.kargs.is_none());
}

#[test]
fn remove_action_creates_remove_check() {
    let action = RpmOstreeAction::Remove {
        packages: Vec::from(["foo".to_string()]),
        fail_allowed: Some(false),
    };

    let commands = action.get_check_commands();

    assert!(commands.install.is_none());
    assert!(commands.remove.is_some());
    assert!(commands.kargs.is_none());
}

#[test]
fn kargs_action_creates_kargs_check() {
    let action = RpmOstreeAction::Kargs {
        add: Some(Vec::from(["foo=bar".to_string()])),
        remove: Some(Vec::from(["quiet".to_string()])),
    };

    let commands = action.get_check_commands();

    assert!(commands.install.is_none());
    assert!(commands.remove.is_none());
    assert!(commands.kargs.is_some());

    let kargs = commands.kargs.unwrap();

    assert_eq!(kargs.add, Some(Vec::from(["foo=bar".to_string()])));
    assert_eq!(kargs.remove, Some(Vec::from(["quiet".to_string()])));
}

#[test]
fn kargs_action_supports_only_add() {
    let action = RpmOstreeAction::Kargs {
        add: Some(Vec::from(["foo=bar".to_string()])),
        remove: None,
    };

    let commands = action.get_check_commands();
    let kargs = commands.kargs.unwrap();

    assert_eq!(kargs.add, Some(Vec::from(["foo=bar".to_string()])));
    assert!(kargs.remove.is_none());
}

#[test]
fn kargs_action_supports_only_remove() {
    let action = RpmOstreeAction::Kargs {
        add: None,
        remove: Some(Vec::from(["quiet".to_string()])),
    };

    let commands = action.get_check_commands();
    let kargs = commands.kargs.unwrap();

    assert!(kargs.add.is_none());
    assert_eq!(kargs.remove, Some(Vec::from(["quiet".to_string()])));
}

#[test]
fn kargs_action_supports_neither_add_nor_remove() {
    let action = RpmOstreeAction::Kargs {
        add: None,
        remove: None,
    };

    let commands = action.get_check_commands();
    let kargs = commands.kargs.unwrap();

    assert!(kargs.add.is_none());
    assert!(kargs.remove.is_none());
}

#[test]
fn kargs_action_creates_correct_command() {
    let _user_context = user_context();

    let action = RpmOstreeAction::Kargs {
        add: Some(Vec::from(["foo=bar".to_string(), "baz".to_string()])),
        remove: Some(Vec::from(["quiet".to_string()])),
    };

    let command = action.get_command();

    assert_eq!(
        command.args,
        vec![
            "kargs",
            "--append-if-missing=foo=bar",
            "--append-if-missing=baz",
            "--delete-if-present=quiet",
        ]
    );
}

#[test]
fn rpm_commands_with_no_checks_are_treated_as_true() {
    let status = RpmCommands {
        install: None,
        remove: None,
        kargs: None,
    }
    .get_status(None, None, None);

    assert!(status.installed);
    assert!(status.removed);
    assert!(status.kargs);
    assert_eq!(status.to_action_state(), ActionState::Done);
}

#[test]
fn install_and_remove_commands_join_packages_into_one_argument() {
    let install = RpmOstreeAction::Install {
        packages: vec!["foo".to_string(), "bar".to_string()],
        fail_allowed: None,
    };
    let command = install.get_command();
    assert_eq!(command.program, "rpm-ostree");
    assert_eq!(command.args, vec!["install", "foo bar"]);

    let check = install.get_check_commands().install.unwrap();
    assert_eq!(check.program, "rpm");
    assert_eq!(check.args, vec!["-q", "foo bar"]);
}

#[test]
fn kargs_status_compares_arguments_as_substrings() {
    let action = RpmOstreeAction::Kargs {
        add: Some(vec!["foo=bar".to_string()]),
        remove: Some(vec!["quiet".to_string()]),
    };
    let commands = action.get_check_commands();

    let in_place = commands.get_status(None, None, Some("root=/dev/sda foo=bar rw\n"));
    assert!(in_place.kargs);
    assert_eq!(in_place.to_action_state(), ActionState::Done);

    let missing = commands.get_status(None, None, Some("root=/dev/sda quiet foo=bar"));
    assert!(!missing.kargs);
    assert_eq!(missing.to_action_state(), ActionState::UnAvailable);

    let absent = commands.get_status(None, None, Some("root=/dev/sda"));
    assert!(!absent.kargs);
}

#[test]
fn install_and_remove_checks_read_rpm_exit_status() {
    let commands = RpmOstreeAction::Install { packages: vec!["foo".to_string()], fail_allowed: None }
        .get_check_commands();
    assert_eq!(commands.get_status(Some(true), None, None).to_action_state(), ActionState::Done);
    let not_installed = commands.get_status(Some(false), None, None);
    assert!(!not_installed.installed);
    assert_eq!(not_installed.to_action_state(), ActionState::UnAvailable);

    let removed = commands.get_status(None, Some(false), None);
    assert!(removed.removed);
    let still_there = commands.get_status(None, Some(true), None);
    assert!(!still_there.removed);
}

#[test]
fn rpm_ostree_actions_flags_and_undo() {
    let install = RpmOstreeAction::Install { packages: vec!["foo".to_string()], fail_allowed: Some(true) };
    assert!(!install.needs_elevation());
    assert!(install.fail_allowed());
    assert_eq!(
        install.to_undo(),
        RpmOstreeAction::Remove { packages: vec!["foo".to_string()], fail_allowed: Some(true) }
    );
    let kargs = RpmOstreeAction::Kargs { add: Some(vec!["a".to_string()]), remove: None };
    assert!(kargs.needs_elevation());
    assert!(!kargs.fail_allowed());
    assert_eq!(kargs.to_undo(), RpmOstreeAction::Kargs { add: None, remove: Some(vec!["a".to_string()]) });
    assert_eq!(kargs.to_undo().to_undo(), kargs);
}

#[test]
fn rpm_ostree_display_strings() {
    let install = RpmOstreeAction::Install {
        packages: vec!["foo".to_string(), "bar".to_string()],
        fail_allowed: None,
    };
    assert_eq!(install.to_display_string(), "Rpm Ostree installing: foo,bar.");
    let remove = RpmOstreeAction::Remove { packages: vec!["foo".to_string()], fail_allowed: None };
    assert_eq!(remove.to_display_string(), "Rpm Ostree removing: foo.");
    let kargs = RpmOstreeAction::Kargs {
        add: Some(vec!["a=1".to_string(), "b".to_string()]),
        remove: Some(vec!["quiet".to_string()]),
    };
    assert_eq!(
        kargs.to_display_string(),
        "Rpm Ostree removing kargs: quiet\nRpm Ostree adding kargs: a=1 b"
    );
}

#[test]
fn rpm_ostree_on_error_cancels_only_a_busy_daemon() {
    let action = RpmOstreeAction::Install { packages: vec!["foo".to_string()], fail_allowed: None };
    assert!(action.on_error(None).is_none());
    assert!(action.on_error(Some("")).is_none());
    let cancel = action.on_error(Some("/org/projectatomic/rpmostree1/transaction")).unwrap();
    assert_eq!(cancel.program, "rpm-ostree");
    assert_eq!(cancel.args, vec!["cancel"]);
    let query = RpmOstreeAction::idle_query();
    assert_eq!(query.destination, "org.projectatomic.rpmostree1");
    assert_eq!(query.property, "ActiveTransactionPath");
}
