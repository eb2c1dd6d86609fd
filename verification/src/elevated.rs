//! The protocol between the application and its elevated helper process:
//! the requests it sends and how each kind of response is handled.
use crate::command::CommandLine;
use crate::text::{owned, same_text};
use crate::user_context::UserExecutionContext;
use vstd::prelude::*;

verus! {

/// A request to the elevated helper.
#[derive(Debug)]
pub enum ProcessRequest {
    /// Run the runner with this identity for this user.
    Run { action_runner_id: u64, user_context: UserExecutionContext },
    /// Stop.
    Shutdown,
}

/// The kinds of line the helper writes to its output.
#[derive(PartialEq, Eq, Structural, Clone, Copy, Debug)]
pub enum ResponseKind {
    /// The helper is waiting for requests.
    Ready,
    /// The requested runner was found and started.
    Started,
    /// A progress report of the running runner.
    Progress,
    /// The runner finished; the line carries its results.
    Finished,
    /// The request failed; the line carries the error.
    Failed,
    /// A line that is not a response (output of a command, say).
    NonJson,
}

/// What to do with a line read while waiting for the helper to be ready.
#[derive(PartialEq, Eq, Structural, Clone, Copy, Debug)]
pub enum StartDecision {
    /// The helper is ready.
    Ready,
    /// Read the next line.
    KeepWaiting,
    /// The helper answered something else: starting it failed.
    Unexpected,
}

/// What to do with a line read while a runner runs in the helper.
#[derive(PartialEq, Eq, Structural, Clone, Copy, Debug)]
pub enum RunDecision {
    /// Read the next line.
    KeepReading,
    /// Pass the progress report on, then read the next line.
    ReportProgress,
    /// The runner is done: its results are the answer.
    Finish,
    /// The runner failed: its error is the answer.
    Fail,
    /// The helper answered `Ready` in the middle of a run: an error.
    Unexpected,
}

/// What the helper does with one line of its input.
#[derive(Debug)]
pub enum RequestDecision {
    /// Stop serving.
    Stop,
    /// Answer that the request could not be read, then go on.
    RejectInvalid,
    /// Run the runner, then go on.
    Run { action_runner_id: u64, user_context: UserExecutionContext },
}

/// Handling of a line read while waiting for `Ready`.
pub open spec fn spec_on_start_response(kind: ResponseKind) -> StartDecision {
    match kind {
        ResponseKind::Ready => StartDecision::Ready,
        ResponseKind::NonJson => StartDecision::KeepWaiting,
        _ => StartDecision::Unexpected,
    }
}

/// Handling of a line read during a run.
pub open spec fn spec_on_run_response(kind: ResponseKind) -> RunDecision {
    match kind {
        ResponseKind::Ready => RunDecision::Unexpected,
        ResponseKind::Started => RunDecision::KeepReading,
        ResponseKind::Progress => RunDecision::ReportProgress,
        ResponseKind::Finished => RunDecision::Finish,
        ResponseKind::Failed => RunDecision::Fail,
        ResponseKind::NonJson => RunDecision::KeepReading,
    }
}

/// What to do with a line read while waiting for the helper to be ready:
/// `Ready` ends the wait, lines that are not responses are skipped, and any
/// other response is an error.
pub fn on_start_response(kind: ResponseKind) -> (r: StartDecision)
    ensures
        r == spec_on_start_response(kind),
{
    match kind {
        ResponseKind::Ready => StartDecision::Ready,
        ResponseKind::NonJson => StartDecision::KeepWaiting,
        _ => StartDecision::Unexpected,
    }
}

/// What to do with a line read during a run.
pub fn on_run_response(kind: ResponseKind) -> (r: RunDecision)
    ensures
        r == spec_on_run_response(kind),
{
    match kind {
        ResponseKind::Ready => RunDecision::Unexpected,
        ResponseKind::Started => RunDecision::KeepReading,
        ResponseKind::Progress => RunDecision::ReportProgress,
        ResponseKind::Finished => RunDecision::Finish,
        ResponseKind::Failed => RunDecision::Fail,
        ResponseKind::NonJson => RunDecision::KeepReading,
    }
}

/// What the helper does with a line of input: at the end of input (`None`)
/// or on `Shutdown` it stops; a line that is not a request is rejected; a
/// run request is carried out.
pub fn on_request(line: Option<Option<ProcessRequest>>) -> (r: RequestDecision)
    ensures
        match line {
            None => r is Stop,
            Some(None) => r is RejectInvalid,
            Some(Some(ProcessRequest::Shutdown)) => r is Stop,
            Some(Some(ProcessRequest::Run { action_runner_id, user_context })) => r
                matches RequestDecision::Run { action_runner_id: id, user_context: ctx }
                && id == action_runner_id && ctx@ == user_context@,
        },
{
    match line {
        None => RequestDecision::Stop,
        Some(None) => RequestDecision::RejectInvalid,
        Some(Some(ProcessRequest::Shutdown)) => RequestDecision::Stop,
        Some(Some(ProcessRequest::Run { action_runner_id, user_context })) => RequestDecision::Run {
            action_runner_id,
            user_context,
        },
    }
}

/// The name of the command-line subcommand that serves as the helper.
pub open spec fn helper_subcommand() -> Seq<char> {
    "action-runner"@
}

/// The name of the helper subcommand.
pub fn helper_subcommand_name() -> (r: String)
    ensures
        r@ == helper_subcommand(),
{
    owned("action-runner")
}

/// The command that starts the helper with root rights: through `sudo` in a
/// development container, else through `pkexec --keep-cwd`; it runs this
/// program's `action-runner` subcommand.
pub fn helper_command(in_devcontainer: bool, current_exe: &str) -> (r: CommandLine)
    ensures
        r@ == if in_devcontainer {
            ("sudo"@, seq![current_exe@, helper_subcommand()])
        } else {
            ("pkexec"@, seq!["--keep-cwd"@, current_exe@, helper_subcommand()])
        },
{
    let mut command = if in_devcontainer {
        CommandLine::new("sudo")
    } else {
        let mut c = CommandLine::new("pkexec");
        c.arg_str("--keep-cwd");
        c
    };
    command.arg_str(current_exe);
    command.arg(helper_subcommand_name());
    proof {
        if in_devcontainer {
            assert(command@.1 =~= seq![current_exe@, helper_subcommand()]);
        } else {
            assert(command@.1 =~= seq!["--keep-cwd"@, current_exe@, helper_subcommand()]);
        }
    }
    command
}


/// A command to the thread that holds the elevated helper.
#[derive(PartialEq, Eq, Structural, Clone, Copy, Debug)]
pub enum HelperCommandKind {
    /// Have the helper running before a task that needs it arrives.
    EnsureStarted,
    /// Run a task in the helper.
    Run,
}

/// What the helper thread does with a command.
#[derive(PartialEq, Eq, Structural, Clone, Copy, Debug)]
pub enum HelperPlan {
    /// Nothing: the helper is already held.
    Keep,
    /// Start the helper and hold it.
    Start,
    /// Start the helper, then run the task in it.
    StartThenRun,
    /// Run the task in the helper that is held.
    Run,
}

/// What the helper thread does once its plan for a command is carried as
/// far as starting a helper.
#[derive(PartialEq, Eq, Structural, Clone, Copy, Debug)]
pub enum HelperAction {
    /// Nothing more.
    Idle,
    /// Report that the helper could not be started; no task waits.
    ReportFailure,
    /// Answer the waiting task with the start failure.
    AnswerFailure,
    /// Run the waiting task in the held helper and answer with its result.
    RunTask,
}

/// The helper thread's plan for a command, given whether it holds a helper.
pub open spec fn spec_on_helper_command(helper_held: bool, command: HelperCommandKind) -> HelperPlan {
    match (command, helper_held) {
        (HelperCommandKind::EnsureStarted, true) => HelperPlan::Keep,
        (HelperCommandKind::EnsureStarted, false) => HelperPlan::Start,
        (HelperCommandKind::Run, true) => HelperPlan::Run,
        (HelperCommandKind::Run, false) => HelperPlan::StartThenRun,
    }
}

/// Whether a plan starts a helper.
pub open spec fn spec_plan_starts(plan: HelperPlan) -> bool {
    plan == HelperPlan::Start || plan == HelperPlan::StartThenRun
}

/// What follows a plan, given whether the helper started (only read when
/// the plan starts one).
pub open spec fn spec_after_plan(plan: HelperPlan, started: bool) -> HelperAction {
    match plan {
        HelperPlan::Keep => HelperAction::Idle,
        HelperPlan::Run => HelperAction::RunTask,
        HelperPlan::Start => if started {
            HelperAction::Idle
        } else {
            HelperAction::ReportFailure
        },
        HelperPlan::StartThenRun => if started {
            HelperAction::RunTask
        } else {
            HelperAction::AnswerFailure
        },
    }
}

/// How many answers the waiting task gets from an action: one from a run
/// or from a start failure, none otherwise.
pub open spec fn answers(a: HelperAction) -> nat {
    match a {
        HelperAction::RunTask | HelperAction::AnswerFailure => 1,
        _ => 0,
    }
}

/// Whether a helper is held after the plan: the one held before, or the
/// one it started.
pub open spec fn held_after(held: bool, plan: HelperPlan, started: bool) -> bool {
    held || (spec_plan_starts(plan) && started)
}

/// The helper thread's plan for a command: a helper is started only when
/// none is held, and the one held is reused.
pub fn on_helper_command(helper_held: bool, command: HelperCommandKind) -> (r: HelperPlan)
    ensures
        r == spec_on_helper_command(helper_held, command),
{
    match (command, helper_held) {
        (HelperCommandKind::EnsureStarted, true) => HelperPlan::Keep,
        (HelperCommandKind::EnsureStarted, false) => HelperPlan::Start,
        (HelperCommandKind::Run, true) => HelperPlan::Run,
        (HelperCommandKind::Run, false) => HelperPlan::StartThenRun,
    }
}

/// Whether the plan starts a helper.
pub fn plan_starts(plan: HelperPlan) -> (r: bool)
    ensures
        r == spec_plan_starts(plan),
{
    plan == HelperPlan::Start || plan == HelperPlan::StartThenRun
}

/// What follows a plan: a task waiting for a held helper runs in it; one
/// whose helper had to be started runs if it started and is answered with
/// the failure otherwise; a failure with no waiting task is only reported.
pub fn after_plan(plan: HelperPlan, started: bool) -> (r: HelperAction)
    ensures
        r == spec_after_plan(plan, started),
{
    match plan {
        HelperPlan::Keep => HelperAction::Idle,
        HelperPlan::Run => HelperAction::RunTask,
        HelperPlan::Start => if started {
            HelperAction::Idle
        } else {
            HelperAction::ReportFailure
        },
        HelperPlan::StartThenRun => if started {
            HelperAction::RunTask
        } else {
            HelperAction::AnswerFailure
        },
    }
}

/// Whether an answer of the helper thread, for run `answer_run_id`, is the
/// one the task worker waits for (run `waiting_run_id`); other answers are
/// skipped.
pub fn is_answer_for(waiting_run_id: &str, answer_run_id: &str) -> (r: bool)
    ensures
        r == (waiting_run_id@ == answer_run_id@),
{
    same_text(waiting_run_id, answer_run_id)
}

} // verus!
