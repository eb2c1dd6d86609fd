use app_core::action_state::ActionState;
use app_core::systemd::{IsEnabledOutput, Scope, StatusStep, SystemdAction};

fn enable_action() -> SystemdAction {
    SystemdAction::Enable {
        unit: "some-unit".to_string(),
        scope: Scope::User,
        now: Some(true),
        fail_allowed: Some(false),
    }
}

fn disable_action() -> SystemdAction {
    SystemdAction::Disable {
        unit: "some-unit".to_string(),
        scope: Scope::User,
        now: Some(true),
        fail_allowed: Some(false),
    }
}

fn command_args(action: &SystemdAction) -> Vec<String> {
    action.get_command().args
}

#[test]
fn enable_action_with_all_fields_commands() {
    let action = SystemdAction::Enable {
        unit: "some-unit".to_string(),
        scope: Scope::User,
        now: Some(true),
        fail_allowed: Some(false),
    };

    assert_eq!(command_args(&action), vec!["--user", "enable", "--now", "some-unit"]);
    assert!(!action.fail_allowed());
    assert!(!action.needs_elevation());
}

#[test]
fn disable_action_with_all_fields_commands() {
    let action = SystemdAction::Disable {
        unit: "some-unit".to_string(),
        scope: Scope::System,
        now: Some(false),
        fail_allowed: Some(true),
    };

    assert_eq!(command_args(&action), vec!["--system", "disable", "some-unit"]);
    assert!(action.fail_allowed());
    assert!(action.needs_elevation());
}

#[test]
fn enable_action_with_defaults_commands() {
    let action = SystemdAction::Enable {
        unit: "some-unit".to_string(),
        scope: Scope::User,
        now: None,
        fail_allowed: None,
    };

    assert_eq!(command_args(&action), vec!["--user", "enable", "--now", "some-unit"]);
    assert!(!action.fail_allowed());
    assert!(!action.needs_elevation());
}

#[test]
fn enable_status_maps_correctly() {
    let action = enable_action();

    assert_eq!(
        IsEnabledOutput::Enabled.to_action_state(&action, None).action_state(),
        Some(ActionState::Done)
    );

    assert_eq!(
        IsEnabledOutput::Disabled.to_action_state(&action, None).action_state(),
        Some(ActionState::Available)
    );

    assert_eq!(
        IsEnabledOutput::NotFound.to_action_state(&action, None).action_state(),
        Some(ActionState::UnAvailable)
    );
}

#[test]
fn disable_status_maps_correctly() {
    let action = disable_action();

    assert_eq!(
        IsEnabledOutput::Disabled.to_action_state(&action, None).action_state(),
        Some(ActionState::Done)
    );

    assert_eq!(
        IsEnabledOutput::Enabled.to_action_state(&action, None).action_state(),
        Some(ActionState::Available)
    );

    assert_eq!(
        IsEnabledOutput::NotFound.to_action_state(&action, None).action_state(),
        Some(ActionState::UnAvailable)
    );
}

#[test]
fn enable_alias_reaches_max_recursion_depth() {
    let action = enable_action();
    let step = IsEnabledOutput::Alias.to_action_state(&action, Some(11));

    assert_eq!(step.action_state(), Some(ActionState::UnAvailable));

    // The application logs "Reached max recursive depth" for this step.
    assert!(step.reached_max_depth());
}

#[test]
fn disable_alias_reaches_max_recursion_depth() {
    let action = disable_action();
    let step = IsEnabledOutput::Alias.to_action_state(&action, Some(11));

    assert_eq!(step.action_state(), Some(ActionState::UnAvailable));

    assert!(step.reached_max_depth());
}

#[test]
fn alias_is_followed_up_to_the_depth_limit() {
    let action = enable_action();
    assert_eq!(
        IsEnabledOutput::Alias.to_action_state(&action, None),
        StatusStep::ResolveAlias { depth: 1 }
    );
    assert_eq!(
        IsEnabledOutput::Alias.to_action_state(&action, Some(10)),
        StatusStep::ResolveAlias { depth: 11 }
    );
    assert!(IsEnabledOutput::Alias.to_action_state(&action, Some(10)).action_state().is_none());
}

#[test]
fn is_enabled_output_is_read_without_surrounding_whitespace() {
    assert_eq!(IsEnabledOutput::from_str("enabled\n").unwrap(), IsEnabledOutput::Enabled);
    assert_eq!(IsEnabledOutput::from_str("  alias ").unwrap(), IsEnabledOutput::Alias);
    assert_eq!(
        IsEnabledOutput::from_str("enabled-runtime").unwrap(),
        IsEnabledOutput::EnabledRuntime
    );
    let err = IsEnabledOutput::from_str(" something else\n").unwrap_err();
    assert_eq!(err.output, "something else");
    assert_eq!(IsEnabledOutput::Masked.to_display_string(), "masked");
}

#[test]
fn systemd_action_text_and_commands() {
    let action = enable_action();
    assert_eq!(action.to_display_string(), "Systemd enable user unit: some-unit");
    assert_eq!(Scope::System.to_arg(), "--system");
    let check = action.get_check_command();
    assert_eq!(check.program, "systemctl");
    assert_eq!(check.args, vec!["--user", "is-enabled", "some-unit"]);
    let alias = action.get_alias_command();
    assert_eq!(alias.args, vec!["--user", "show", "--property=Id", "--value", "some-unit"]);
    let resolved = action.with_resolved_unit("other.service\n");
    assert_eq!(
        resolved,
        SystemdAction::Enable {
            unit: "other.service".to_string(),
            scope: Scope::User,
            now: Some(true),
            fail_allowed: Some(false),
        }
    );
    assert!(action.on_error().is_none());
}

#[test]
fn systemd_undo_swaps_enable_and_disable() {
    assert_eq!(enable_action().to_undo(), disable_action());
    assert_eq!(disable_action().to_undo(), enable_action());
}

#[test]
fn alias_lookup_decides_with_the_resolved_unit() {
    let action = enable_action();
    // `Alias` at depth 3 asks to follow the alias one level deeper.
    let step = IsEnabledOutput::Alias.to_action_state(&action, Some(3));
    assert_eq!(step, StatusStep::ResolveAlias { depth: 4 });
    // The lookup printed the real unit; its report decides.
    let (resolved, next) =
        action.after_alias_lookup(4, Some(" real.service\n"), Some(IsEnabledOutput::Enabled));
    assert_eq!(
        resolved,
        SystemdAction::Enable {
            unit: "real.service".to_string(),
            scope: Scope::User,
            now: Some(true),
            fail_allowed: Some(false),
        }
    );
    assert_eq!(next, StatusStep::Resolved(ActionState::Done));
    // Another alias goes deeper still.
    let (_, deeper) = disable_action().after_alias_lookup(4, Some("x"), Some(IsEnabledOutput::Alias));
    assert_eq!(deeper, StatusStep::ResolveAlias { depth: 5 });
}

#[test]
fn a_failed_alias_lookup_or_report_leaves_the_action_unavailable() {
    let action = enable_action();
    let (same, step) = action.after_alias_lookup(1, None, Some(IsEnabledOutput::Enabled));
    assert_eq!(same, action);
    assert_eq!(step, StatusStep::Resolved(ActionState::UnAvailable));
    let (_, step) = action.after_alias_lookup(1, Some("real.service"), None);
    assert_eq!(step, StatusStep::Resolved(ActionState::UnAvailable));
}
