use app_core::action::Action;
use app_core::action_runner::{ActionResult, ActionStatus, ActionRunner};
use app_core::action_state::ActionState;
use app_core::command::CommandLine;
use app_core::pages::content_yaml::{ContentPageYaml, TextAlign};
use app_core::pages::page_config::PageYaml;
use app_core::pages::settings_yaml::{Group, Input, InputType, Setting, SettingsPageYaml, Switch};
use app_core::pages::YamlPage;
use app_core::rpm_ostree::RpmOstreeAction;
use app_core::run_machine::{CommandStage, RunError, RunEvent, RunPhase, RunStep};
use app_core::systemd::{Scope, SystemdAction};
use app_core::user_context::UserExecutionContext;

fn ctx() -> UserExecutionContext {
    UserExecutionContext::new(1000, "tester", "/home/tester", "/run/user/1000", "unix:path=/run/user/1000/bus")
}

fn enable(unit: &str, scope: Scope, fail_allowed: Option<bool>) -> Action {
    Action::SystemD(SystemdAction::Enable {
        unit: unit.to_string(),
        scope,
        now: None,
        fail_allowed,
    })
}

fn switch(title: &str, actions: Vec<Action>) -> Setting {
    Setting::Switch(Switch { title: title.to_string(), subtitle: None, actions })
}

#[test]
fn runner_needs_elevation_when_an_action_does() {
    let user = ActionRunner::new("user", &[enable("a", Scope::User, None)], &ctx());
    assert!(!user.needs_elevation());
    let mixed = ActionRunner::new(
        "mixed",
        &[enable("a", Scope::User, None), enable("b", Scope::System, None)],
        &ctx(),
    );
    assert!(mixed.needs_elevation());
    assert_eq!(mixed.name(), "mixed");
    assert_eq!(mixed.queue().len(), 2);
    assert!(!mixed.is_undo());
    assert_eq!(mixed.user_context().user_name(), "tester");
}

#[test]
fn runner_identity_is_stable_and_tells_runners_apart() {
    let a = ActionRunner::new("switch", &[enable("a", Scope::User, None)], &ctx());
    let b = ActionRunner::new("switch", &[enable("a", Scope::User, None)], &ctx());
    assert_eq!(a.get_id(), b.get_id());
    let c = ActionRunner::new("switch", &[enable("b", Scope::User, None)], &ctx());
    assert_ne!(a.get_id(), c.get_id());
    let undo = a.to_undo();
    assert_ne!(a.get_id(), undo.get_id());
    assert!(undo.is_undo());
    assert_eq!(undo.name(), "switch");
    assert_eq!(
        undo.queue()[0],
        Action::SystemD(SystemdAction::Disable {
            unit: "a".to_string(),
            scope: Scope::User,
            now: None,
            fail_allowed: None,
        })
    );
    // Undoing an undo runner twice gives a runner with the same identity.
    assert_eq!(undo.to_undo().to_undo().get_id(), undo.get_id());
    assert_ne!(undo.to_undo().get_id(), a.get_id());
}

#[test]
fn settings_page_declares_each_switch_and_its_undo() {
    let page = SettingsPageYaml {
        title: "Settings".to_string(),
        section: None,
        icon: "icon".to_string(),
        groups: vec![Group {
            title: Some("Group".to_string()),
            settings: vec![
                Setting::Input(Input { title: "Name".to_string(), input_type: InputType::Name }),
                switch("ssh", vec![enable("sshd.service", Scope::System, None)]),
                switch("sync", vec![enable("syncthing.service", Scope::User, Some(true))]),
            ],
        }],
    };
    let runners = page.get_action_runners(&ctx());
    assert_eq!(runners.len(), 4);
    for (id, runner) in &runners {
        assert_eq!(*id, runner.get_id());
    }
    let ssh = ActionRunner::new("ssh", &[enable("sshd.service", Scope::System, None)], &ctx());
    assert!(runners.contains_key(&ssh.get_id()));
    assert!(runners.contains_key(&ssh.to_undo().get_id()));

    let page_yaml = PageYaml::Settings(page);
    let found = ActionRunner::from_id(ssh.to_undo().get_id(), &ctx(), &vec![page_yaml]).unwrap();
    assert!(found.is_undo());
    assert_eq!(found.name(), "ssh");
}

#[test]
fn content_pages_declare_no_runners_and_unknown_ids_are_not_found() {
    let content = ContentPageYaml {
        title: "Welcome".to_string(),
        section: None,
        icon: "icon".to_string(),
        header: None,
        contents: None,
    };
    assert!(content.get_action_runners(&ctx()).is_empty());
    assert_eq!(TextAlign::default(), TextAlign::Left);
    let pages = vec![PageYaml::Content(content)];
    assert!(pages[0].into_action_runners(&ctx()).is_empty());
    let err = ActionRunner::from_id(42, &ctx(), &pages).unwrap_err();
    assert_eq!(err.action_runner_id, 42);
}

#[test]
fn switch_status_combines_action_states() {
    let sw = Switch {
        title: "t".to_string(),
        subtitle: None,
        actions: vec![enable("a", Scope::User, None), enable("b", Scope::User, None)],
    };
    assert_eq!(sw.get_status(&vec![ActionState::Done, ActionState::Done]), ActionState::Done);
    assert_eq!(
        sw.get_status(&vec![ActionState::UnAvailable, ActionState::UnAvailable]),
        ActionState::Available
    );
    assert_eq!(sw.get_status(&vec![ActionState::Done, ActionState::Available]), ActionState::UnAvailable);
    assert_eq!(
        sw.get_status(&vec![ActionState::Available, ActionState::Available]),
        ActionState::UnAvailable
    );
    let empty = Switch { title: "t".to_string(), subtitle: None, actions: vec![] };
    assert_eq!(empty.get_status(&vec![]), ActionState::Done);
}

fn exited(success: bool, out: &str) -> RunEvent {
    RunEvent::Exited { success, stdout: out.to_string(), stderr: String::new() }
}

#[test]
fn a_run_announces_runs_and_collects_every_action() {
    let runner = ActionRunner::new(
        "two",
        &[enable("a", Scope::User, None), enable("b", Scope::System, None)],
        &ctx(),
    );
    let state = runner.start_run();
    let (state, step) = runner.run_step(state, RunEvent::Proceed);
    match step {
        RunStep::Progress(p) => {
            assert_eq!(p.action.as_deref(), Some("Systemd enable user unit: a"));
            assert_eq!(p.action_nr, Some(1));
            assert_eq!(p.total_actions, 2);
            assert_eq!(p.completed, 0);
            assert_eq!(p.status, ActionStatus::Running);
        }
        other => panic!("unexpected {other:?}"),
    }
    let (state, step) = runner.run_step(state, RunEvent::Proceed);
    match step {
        RunStep::Run { command, as_user } => {
            assert_eq!(command.program, "systemctl");
            assert_eq!(command.args, vec!["--user", "enable", "--now", "a"]);
            // The runner is elevated and this action is not: it runs as the user.
            assert!(as_user);
        }
        other => panic!("unexpected {other:?}"),
    }
    let (state, step) = runner.run_step(state, exited(true, "ok a\n"));
    assert!(matches!(step, RunStep::Progress(ref p) if p.action_nr == Some(2) && p.completed == 1));
    let (state, step) = runner.run_step(state, RunEvent::Proceed);
    assert!(matches!(step, RunStep::Run { as_user: false, .. }));
    let (state, step) = runner.run_step(state, exited(true, ""));
    assert!(matches!(step, RunStep::Progress(ref p) if p.status == ActionStatus::Finished && p.action.is_none()));
    assert_eq!(state.phase, RunPhase::Closing);
    let (state, step) = runner.run_step(state, RunEvent::Proceed);
    assert_eq!(state.phase, RunPhase::Done);
    match step {
        RunStep::Finished(results) => {
            assert_eq!(results.len(), 2);
            assert!(results.iter().all(|r| r.success));
            assert_eq!(results[0].stdout, "==== Running action 1 ====\nok a");
            assert_eq!(results[1].stdout, "==== Running action 2 ====");
        }
        other => panic!("unexpected {other:?}"),
    }
}

#[test]
fn a_run_stops_at_a_failure_that_is_not_allowed_and_retries_after_recovery() {
    let runner = ActionRunner::new(
        "three",
        &[
            enable("a", Scope::User, Some(true)),
            Action::RpmOstree(RpmOstreeAction::Install { packages: vec!["p".to_string()], fail_allowed: None }),
            enable("c", Scope::User, None),
        ],
        &ctx(),
    );
    let state = runner.start_run();
    let (state, _) = runner.run_step(state, RunEvent::Proceed);
    let (state, _) = runner.run_step(state, RunEvent::Proceed);
    // The first action fails, has no recovery, and may fail: the run goes on.
    let (state, step) = runner.run_step(state, exited(false, "bad"));
    assert!(matches!(step, RunStep::FindRecovery { action_index: 0 }));
    let (state, step) = runner.run_step(state, RunEvent::Recovery(None));
    assert!(matches!(step, RunStep::Progress(ref p) if p.action_nr == Some(2)));
    let (state, _) = runner.run_step(state, RunEvent::Proceed);
    // The second fails, recovers, and fails again: it may not fail, so the run ends.
    let (state, _) = runner.run_step(state, exited(false, "busy"));
    let mut cancel = CommandLine::new("rpm-ostree");
    cancel.arg_str("cancel");
    let (state, step) = runner.run_step(state, RunEvent::Recovery(Some(cancel)));
    assert!(matches!(step, RunStep::Run { ref command, as_user: false } if command.args == vec!["cancel"]));
    let (state, step) = runner.run_step(state, exited(true, "cancelled"));
    assert!(matches!(step, RunStep::Run { ref command, .. } if command.args == vec!["install", "p"]));
    let (state, step) = runner.run_step(state, exited(false, "still failing"));
    assert!(matches!(step, RunStep::Progress(ref p) if p.status == ActionStatus::Finished));
    let (_, step) = runner.run_step(state, RunEvent::Proceed);
    match step {
        RunStep::Finished(results) => {
            assert_eq!(results.len(), 2);
            assert!(!results[0].success);
            assert!(!results[1].success);
            assert_eq!(
                results[1].stdout,
                "==== Running action 2 ====\nbusy\n== Running on_error command\ncancelled\n== Retrying action command\nstill failing"
            );
        }
        other => panic!("unexpected {other:?}"),
    }
}

#[test]
fn a_command_that_cannot_start_stops_the_run() {
    let runner = ActionRunner::new("one", &[enable("a", Scope::User, None)], &ctx());
    let state = runner.start_run();
    let (state, _) = runner.run_step(state, RunEvent::Proceed);
    let (state, _) = runner.run_step(state, RunEvent::Proceed);
    assert!(runner.run_accepts(&state, &RunEvent::SpawnFailed { message: String::new() }));
    assert!(!runner.run_accepts(&state, &RunEvent::Proceed));
    let (state, step) = runner.run_step(state, RunEvent::SpawnFailed { message: "no systemctl".to_string() });
    assert_eq!(state.phase, RunPhase::Done);
    match step {
        RunStep::Failed(RunError::Spawn { stage, message }) => {
            assert_eq!(stage, CommandStage::Action);
            assert_eq!(message, "no systemctl");
        }
        other => panic!("unexpected {other:?}"),
    }
}

#[test]
fn an_empty_runner_finishes_at_once() {
    let runner = ActionRunner::new("empty", &[], &ctx());
    let state = runner.start_run();
    let (state, step) = runner.run_step(state, RunEvent::Proceed);
    assert!(matches!(step, RunStep::Progress(ref p) if p.total_actions == 0 && p.status == ActionStatus::Finished));
    let (_, step) = runner.run_step(state, RunEvent::Proceed);
    assert!(matches!(step, RunStep::Finished(ref r) if r.is_empty()));
}

#[test]
fn action_result_keeps_trimmed_output() {
    let action = enable("a", Scope::User, None);
    let result = ActionResult::from_output(&action, false, "  out \n", "\terr\n");
    assert_eq!(result.action, action);
    assert!(!result.success);
    assert_eq!(result.stdout, "out");
    assert_eq!(result.stderr, "err");
}
