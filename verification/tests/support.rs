use app_core::action_runner::ActionRunner;
use app_core::action::Action;
use app_core::action_manager::actions::systemd::{Scope as ManagerScope, SystemdAction as ManagerSystemdAction};
use app_core::action_manager::actions::Action as ManagerAction;
use app_core::action_manager::first_failure;
use app_core::action_runner::ActionResult;
use app_core::batch::systemd::{Scope as BatchScope, SystemdAction as BatchSystemdAction};
use app_core::batch::{batch_results, CommandOutcome};
use app_core::task_queue::TaskQueue;
use app_core::batch::{Action as BatchAction, ActionResult as BatchResult, ActionRunner as BatchRunner, RunMode};
use app_core::dbus_query::{get_address, DbusConnectionType};
use app_core::elevated::{
    after_plan, is_answer_for, on_helper_command, plan_starts, HelperAction, HelperCommandKind, HelperPlan,
    helper_command, on_request, on_run_response, on_start_response, ProcessRequest, RequestDecision,
    ResponseKind, RunDecision, StartDecision,
};
use app_core::presentation::{
    desktop_file_name, error_line, find_task, icon_file_name, is_page_file_extension,
    progress_subtitle, queue_label, result_output_lines, select_locale, success_line, window_size,
    TextBufferTag,
};
use app_core::systemd::{Scope, SystemdAction};
use app_core::task_book::{make_run_id, tasks_in_queue, TaskBook};
use app_core::text::{chars_of, join_strings, push_decimal, push_signed_decimal, split_on, split_words, trim_str};
use app_core::user_context::UserExecutionContext;

fn ctx() -> UserExecutionContext {
    UserExecutionContext::new(1000, "tester", "/home/tester", "/run/user/1000", "unix:path=/run/user/1000/bus")
}

#[test]
fn user_context_carries_the_session_environment() {
    let c = ctx();
    assert_eq!(c.user_id(), 1000);
    assert_eq!(c.current_dir(), "/home/tester");
    assert_eq!(
        *c.environment(),
        vec![
            ("XDG_RUNTIME_DIR".to_string(), "/run/user/1000".to_string()),
            ("DBUS_SESSION_BUS_ADDRESS".to_string(), "unix:path=/run/user/1000/bus".to_string()),
        ]
    );
    let d = c.duplicate();
    assert_eq!(d.user_name(), c.user_name());
    assert_eq!(d.environment(), c.environment());
}

#[test]
fn bus_addresses_come_from_the_environment() {
    assert_eq!(
        get_address(&DbusConnectionType::System, Some("unix:a".to_string()), None).unwrap(),
        "unix:a"
    );
    assert_eq!(
        get_address(&DbusConnectionType::System, None, Some("x".to_string())).unwrap_err().variable,
        "DBUS_SESSION_BUS_ADDRESS"
    );
    assert_eq!(
        get_address(&DbusConnectionType::Session, None, None).unwrap(),
        "unix:path=/var/run/dbus/system_bus_socket"
    );
    assert_eq!(
        get_address(&DbusConnectionType::Session, None, Some("unix:b".to_string())).unwrap(),
        "unix:b"
    );
}

#[test]
fn helper_protocol_decisions() {
    assert_eq!(on_start_response(ResponseKind::Ready), StartDecision::Ready);
    assert_eq!(on_start_response(ResponseKind::NonJson), StartDecision::KeepWaiting);
    assert_eq!(on_start_response(ResponseKind::Started), StartDecision::Unexpected);
    assert_eq!(on_run_response(ResponseKind::Ready), RunDecision::Unexpected);
    assert_eq!(on_run_response(ResponseKind::Started), RunDecision::KeepReading);
    assert_eq!(on_run_response(ResponseKind::Progress), RunDecision::ReportProgress);
    assert_eq!(on_run_response(ResponseKind::Finished), RunDecision::Finish);
    assert_eq!(on_run_response(ResponseKind::Failed), RunDecision::Fail);
    assert_eq!(on_run_response(ResponseKind::NonJson), RunDecision::KeepReading);
    assert!(matches!(on_request(None), RequestDecision::Stop));
    assert!(matches!(on_request(Some(None)), RequestDecision::RejectInvalid));
    assert!(matches!(on_request(Some(Some(ProcessRequest::Shutdown))), RequestDecision::Stop));
    match on_request(Some(Some(ProcessRequest::Run { action_runner_id: 7, user_context: ctx() }))) {
        RequestDecision::Run { action_runner_id, user_context } => {
            assert_eq!(action_runner_id, 7);
            assert_eq!(user_context.user_name(), "tester");
        }
        other => panic!("unexpected {other:?}"),
    }
    let pk = helper_command(false, "/usr/bin/app");
    assert_eq!(pk.program, "pkexec");
    assert_eq!(pk.args, vec!["--keep-cwd", "/usr/bin/app", "action-runner"]);
    let sudo = helper_command(true, "/usr/bin/app");
    assert_eq!(sudo.program, "sudo");
    assert_eq!(sudo.args, vec!["/usr/bin/app", "action-runner"]);
}

fn system_runner() -> std::sync::Arc<ActionRunner> {
    ActionRunner::new(
        "sshd",
        &[Action::SystemD(SystemdAction::Enable {
            unit: "sshd.service".to_string(),
            scope: Scope::System,
            now: None,
            fail_allowed: None,
        })],
        &ctx(),
    )
}

#[test]
fn task_book_refuses_a_runner_that_is_already_queued() {
    let runner = system_runner();
    let mut book = TaskBook::new();
    assert!(!book.is_running());
    let plan = book.add_with_suffix(&runner, "AbCd1234", 1).unwrap();
    assert_eq!(plan.id, runner.get_id());
    assert_eq!(plan.run_id, format!("{}-AbCd1234", runner.get_id()));
    assert!(plan.ensure_elevated);
    assert!(book.is_running());
    let again = book.add_with_suffix(&runner, "zzzzzzzz", 2).unwrap_err();
    assert_eq!(again.id, runner.get_id());

    book.listen(None, 3);
    // A progress event reaches the run's own listener and the global one.
    assert_eq!(book.dispatch(plan.id, &plan.run_id, false), vec![1, 3]);
    // Another run's event reaches only the global listener.
    assert_eq!(book.dispatch(plan.id, "other", false), vec![3]);
    // The end reaches both, drops the run's listener and frees the runner.
    assert_eq!(book.dispatch(plan.id, &plan.run_id, true), vec![1, 3]);
    assert!(!book.is_running());
    assert_eq!(book.dispatch(plan.id, &plan.run_id, false), vec![3]);
    let plan2 = book.add(&runner, 4).unwrap();
    let prefix = format!("{}-", plan2.id);
    assert!(plan2.run_id.starts_with(&prefix));
    let suffix = &plan2.run_id[prefix.len()..];
    assert_eq!(suffix.len(), 8);
    assert!(suffix.chars().all(|c| c.is_ascii_alphanumeric()));
    book.abandon(plan2.id);
    assert!(!book.is_running());
}

#[test]
fn run_ids_and_queue_counts() {
    assert_eq!(make_run_id(42, "abc"), "42-abc");
    assert_eq!(tasks_in_queue(3), 3);
    assert_eq!(tasks_in_queue(usize::MAX), 0);
}

#[test]
fn window_opens_with_saved_or_default_size() {
    assert_eq!(window_size(0, 0), (950, 850));
    assert_eq!(window_size(100, 100), (600, 500));
    assert_eq!(window_size(1200, 900), (1200, 900));
}

#[test]
fn progress_texts() {
    assert_eq!(progress_subtitle(Some("Install"), Some(2), 5), "2 / 5 : Install");
    assert_eq!(progress_subtitle(Some("Install"), None, 5), "");
    assert_eq!(progress_subtitle(None, Some(1), 5), "");
    assert_eq!(queue_label("Tasks", 2, false), "Tasks (3)");
    assert_eq!(queue_label("Tasks", 2, true), "Tasks (0)");
    assert_eq!(error_line("boom"), "\u{2717} boom");
    assert_eq!(success_line("done"), "\u{2713} done");
    assert_eq!(TextBufferTag::Error.to_display_string(), "error");
    assert_eq!(TextBufferTag::Success.to_display_string(), "succes");
}

#[test]
fn finding_tasks_prefers_the_newest() {
    let ids = vec!["a".to_string(), "b".to_string(), "a".to_string()];
    assert_eq!(find_task(&ids, "a"), Some(2));
    assert_eq!(find_task(&ids, "b"), Some(1));
    assert_eq!(find_task(&ids, "c"), None);
    let ids2 = vec!["a".to_string(), "b".to_string()];
    assert_eq!(find_task(&ids2, "a"), Some(0));
}

#[test]
fn locale_selection_falls_back_to_the_language_stem() {
    let supported = vec!["en".to_string(), "de".to_string(), "pt_BR".to_string()];
    assert_eq!(select_locale("de", &supported), Some("de".to_string()));
    assert_eq!(select_locale("en_GB", &supported), Some("en".to_string()));
    assert_eq!(select_locale("pt_PT", &supported), Some("pt".to_string()));
    assert_eq!(select_locale("fr_FR", &supported), None);
    assert_eq!(select_locale("pt_BR", &supported), Some("pt_BR".to_string()));
}

#[test]
fn desktop_file_names_and_page_files() {
    assert_eq!(desktop_file_name("org.example.App"), "org.example.App.desktop");
    assert_eq!(icon_file_name("org.example.App"), "org.example.App.png");
    assert!(is_page_file_extension(Some("yml")));
    assert!(is_page_file_extension(Some("yaml")));
    assert!(!is_page_file_extension(Some("json")));
    assert!(!is_page_file_extension(None));
}

#[test]
fn success_lists_the_outputs_that_printed_something() {
    let a = Action::SystemD(SystemdAction::Enable {
        unit: "a".to_string(),
        scope: Scope::User,
        now: None,
        fail_allowed: None,
    });
    let results = vec![
        ActionResult::from_output(&a, true, "first", ""),
        ActionResult::from_output(&a, true, "  ", ""),
        ActionResult::from_output(&a, false, "third", "e"),
    ];
    assert_eq!(result_output_lines(&results), vec!["first", "third"]);
    assert_eq!(first_failure(&results), Some(2));
    assert_eq!(first_failure(&results[..2].iter().map(|r| ActionResult::from_output(&r.action, r.success, &r.stdout, &r.stderr)).collect()), None);
}

#[test]
fn batch_runner_elevates_for_system_units() {
    let mut runner = BatchRunner::new();
    assert_eq!(runner.run_mode(), RunMode::Direct);
    runner.add(BatchAction::SystemD(BatchSystemdAction::EnableUnit {
        name: "a".to_string(),
        scope: BatchScope::User,
    }));
    assert_eq!(runner.run_mode(), RunMode::Direct);
    runner.add(BatchAction::SystemD(BatchSystemdAction::DisableUnit {
        name: "b".to_string(),
        scope: BatchScope::System,
    }));
    assert_eq!(runner.run_mode(), RunMode::Elevated);
    assert_eq!(runner.queue().len(), 2);
    let command = runner.queue()[1].get_command();
    assert_eq!(command.args, vec!["--system", "disable", "--now", "b"]);
    let elevated = BatchRunner::elevated_command(false, "/bin/app", "{}");
    assert_eq!(elevated.program, "pkexec");
    assert_eq!(elevated.args, vec!["/bin/app", "run-batch", "--json", "{}"]);
    let queue = runner.into_queue();
    let result = BatchResult::from_output(queue.into_iter().next().unwrap(), true, "ok\n", "");
    assert!(result.success());
    assert_eq!(result.stdout(), "ok");
}

#[test]
fn managed_systemd_actions() {
    let action = ManagerAction::SystemD(ManagerSystemdAction::Enable {
        unit: "u".to_string(),
        scope: ManagerScope::System,
    });
    assert_eq!(action.to_display_string(), "Systemd enable system unit: u");
    assert_eq!(action.get_command().args, vec!["--system", "enable", "--now", "u"]);
    assert!(action.needs_elevation());
    assert_eq!(ManagerScope::User.to_arg(), "--user");
}

#[test]
fn text_helpers() {
    assert_eq!(trim_str("\u{a0} a b\u{3000}"), "a b");
    let fields = split_on(&chars_of("a::b"), ':');
    assert_eq!(fields.len(), 3);
    assert!(fields[1].is_empty());
    let words = split_words(&chars_of("  10 20\t30 "));
    assert_eq!(words.len(), 3);
    assert_eq!(words[2], vec!['3', '0']);
    assert_eq!(join_strings(&vec!["a".to_string(), "b".to_string()], ", "), "a, b");
    let mut s = String::new();
    push_decimal(&mut s, 1234567890123);
    assert_eq!(s, "1234567890123");
}

#[test]
fn helper_thread_starts_a_helper_only_when_none_is_held() {
    assert_eq!(on_helper_command(true, HelperCommandKind::EnsureStarted), HelperPlan::Keep);
    assert_eq!(on_helper_command(false, HelperCommandKind::EnsureStarted), HelperPlan::Start);
    assert_eq!(on_helper_command(true, HelperCommandKind::Run), HelperPlan::Run);
    assert_eq!(on_helper_command(false, HelperCommandKind::Run), HelperPlan::StartThenRun);
    assert!(plan_starts(HelperPlan::Start) && plan_starts(HelperPlan::StartThenRun));
    assert!(!plan_starts(HelperPlan::Keep) && !plan_starts(HelperPlan::Run));
    assert_eq!(after_plan(HelperPlan::StartThenRun, true), HelperAction::RunTask);
    assert_eq!(after_plan(HelperPlan::StartThenRun, false), HelperAction::AnswerFailure);
    assert_eq!(after_plan(HelperPlan::Start, false), HelperAction::ReportFailure);
    assert_eq!(after_plan(HelperPlan::Start, true), HelperAction::Idle);
    assert_eq!(after_plan(HelperPlan::Run, false), HelperAction::RunTask);
    assert_eq!(after_plan(HelperPlan::Keep, false), HelperAction::Idle);
    assert!(is_answer_for("5-abc", "5-abc"));
    assert!(!is_answer_for("5-abc", "5-abd"));
}

#[test]
fn user_context_variables_have_distinct_names() {
    let ctx = ctx();
    assert_eq!(ctx.environment().len(), 2);
    assert_ne!(ctx.environment()[0].0, ctx.environment()[1].0);
    let entries = vec![
        ("A".to_string(), "1".to_string()),
        ("B".to_string(), "2".to_string()),
        ("A".to_string(), "3".to_string()),
    ];
    let c = UserExecutionContext::from_parts(7, "u".to_string(), "/".to_string(), entries);
    let mut env = c.environment().clone();
    env.sort();
    assert_eq!(env, vec![("A".to_string(), "3".to_string()), ("B".to_string(), "2".to_string())]);
    assert_eq!(c.user_id(), 7);
}

#[test]
fn signed_decimals_cover_the_whole_range() {
    let mut s = String::new();
    push_signed_decimal(&mut s, i64::MIN);
    assert_eq!(s, "-9223372036854775808");
    let mut t = String::from("x");
    push_signed_decimal(&mut t, -7);
    assert_eq!(t, "x-7");
}

fn batch_queue() -> Vec<BatchAction> {
    vec![
        BatchAction::SystemD(BatchSystemdAction::EnableUnit { name: "a".to_string(), scope: BatchScope::User }),
        BatchAction::SystemD(BatchSystemdAction::DisableUnit { name: "b".to_string(), scope: BatchScope::User }),
    ]
}

#[test]
fn batch_results_record_every_action_in_order() {
    let outcomes = vec![
        CommandOutcome::Ran { success: true, stdout: " one\n".to_string(), stderr: String::new() },
        CommandOutcome::Ran { success: false, stdout: String::new(), stderr: "bad\n".to_string() },
    ];
    let results = batch_results(batch_queue(), &outcomes).unwrap();
    assert_eq!(results.len(), 2);
    assert!(results[0].success());
    assert_eq!(results[0].stdout(), "one");
    assert!(!results[1].success());
    assert_eq!(results[1].stderr(), "bad");
    assert!(matches!(results[1].action(), BatchAction::SystemD(BatchSystemdAction::DisableUnit { .. })));
}

#[test]
fn a_batch_command_that_cannot_start_discards_the_results() {
    let outcomes = vec![
        CommandOutcome::Ran { success: true, stdout: String::new(), stderr: String::new() },
        CommandOutcome::SpawnFailed { message: "no systemctl".to_string() },
    ];
    let failure = batch_results(batch_queue(), &outcomes).unwrap_err();
    assert_eq!(failure.index, 1);
    assert_eq!(failure.message, "no systemctl");
}

#[test]
fn task_queue_runs_tasks_first_in_first_out() {
    let mut queue: TaskQueue<&str> = TaskQueue::new();
    assert!(!queue.take_next());
    queue.add("first");
    queue.add("second");
    assert!(queue.take_next());
    assert_eq!(queue.running(), Some(&"first"));
    // One task at a time: nothing else starts while "first" runs.
    assert!(!queue.take_next());
    assert!(queue.is_busy());
    assert_eq!(queue.finish(), Some("first"));
    assert_eq!(queue.finish(), None);
    assert!(queue.take_next());
    assert_eq!(queue.running(), Some(&"second"));
    assert_eq!(queue.finish(), Some("second"));
    assert!(!queue.take_next());
    assert!(!queue.is_busy());
}
