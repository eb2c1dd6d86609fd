//! The decisions of running a runner's queue, as a state machine: the
//! caller runs the commands it asks for and reports how they ended.
use crate::action::ActionView;
use crate::action_runner::{ActionResult, ActionRunner, ActionStatus, RunnerView};
use crate::command::CommandLine;
use crate::text::{decimal, owned, push_decimal, push_str, trim};
use vstd::prelude::*;

verus! {

/// The plain content of an action result.
pub struct ActionResultView {
    pub action: ActionView,
    pub success: bool,
    pub stdout: Seq<char>,
    pub stderr: Seq<char>,
}

impl View for ActionResult {
    type V = ActionResultView;

    open spec fn view(&self) -> ActionResultView {
        ActionResultView {
            action: self.action@,
            success: self.success,
            stdout: self.stdout@,
            stderr: self.stderr@,
        }
    }
}

/// The views of a list of results.
pub open spec fn result_views(v: Seq<ActionResult>) -> Seq<ActionResultView> {
    v.map_values(|r: ActionResult| r@)
}

/// Where a run is.
#[derive(PartialEq, Eq, Structural, Clone, Copy, Debug)]
pub enum RunPhase {
    /// Nothing has happened yet.
    Ready,
    /// The current action was announced; its command is to be run.
    Announced,
    /// The current action's command is running.
    Main,
    /// The current action failed; its recovery command is being looked for.
    AwaitRecovery,
    /// The recovery command is running.
    Recovery,
    /// The current action's command is running again after the recovery.
    Retry,
    /// The end was announced; the results are to be handed out.
    Closing,
    /// The run is over.
    Done,
}

/// The state of a run: the current action, the output it has produced so
/// far, and the results of the actions before it.
#[derive(Debug)]
pub struct RunState {
    pub next: usize,
    pub phase: RunPhase,
    pub stdout: String,
    pub stderr: String,
    pub results: Vec<ActionResult>,
}

/// The plain content of a run state.
pub struct RunStateView {
    pub next: int,
    pub phase: RunPhase,
    pub stdout: Seq<char>,
    pub stderr: Seq<char>,
    pub results: Seq<ActionResultView>,
}

impl View for RunState {
    type V = RunStateView;

    open spec fn view(&self) -> RunStateView {
        RunStateView {
            next: self.next as int,
            phase: self.phase,
            stdout: self.stdout@,
            stderr: self.stderr@,
            results: result_views(self.results@),
        }
    }
}

/// What the caller reports to the run.
#[derive(Debug)]
pub enum RunEvent {
    /// Go on (after a progress report).
    Proceed,
    /// The requested command ran: whether it succeeded and what it printed.
    Exited { success: bool, stdout: String, stderr: String },
    /// The requested command could not be started.
    SpawnFailed { message: String },
    /// The recovery command of the failed action, if it has one.
    Recovery(Option<CommandLine>),
}

/// The plain content of an event.
pub enum RunEventView {
    Proceed,
    Exited { success: bool, stdout: Seq<char>, stderr: Seq<char> },
    SpawnFailed { message: Seq<char> },
    Recovery(Option<(Seq<char>, Seq<Seq<char>>)>),
}

impl View for RunEvent {
    type V = RunEventView;

    open spec fn view(&self) -> RunEventView {
        match self {
            RunEvent::Proceed => RunEventView::Proceed,
            RunEvent::Exited { success, stdout, stderr } => RunEventView::Exited {
                success: *success,
                stdout: stdout@,
                stderr: stderr@,
            },
            RunEvent::SpawnFailed { message } => RunEventView::SpawnFailed { message: message@ },
            RunEvent::Recovery(c) => RunEventView::Recovery(
                match c {
                    Some(c) => Some(c@),
                    None => None,
                },
            ),
        }
    }
}

/// Which command could not be started.
#[derive(PartialEq, Eq, Structural, Clone, Copy, Debug)]
pub enum CommandStage {
    Action,
    OnError,
    Retry,
}

/// Why a run stopped without results.
#[derive(Debug)]
pub enum RunError {
    /// The queue is longer than a progress report can count.
    TooManyActions,
    /// A command could not be started.
    Spawn { stage: CommandStage, message: String },
}

/// A progress report: the action about to run (its description and its
/// number counted from 1), the number of actions, how many are behind, and
/// whether the run is still going.
#[derive(Debug)]
pub struct ProgressReport {
    pub action: Option<String>,
    pub action_nr: Option<i32>,
    pub total_actions: i32,
    pub completed: usize,
    pub status: ActionStatus,
}

/// What the run asks of the caller next.
#[derive(Debug)]
pub enum RunStep {
    /// Report progress, then send `Proceed`.
    Progress(ProgressReport),
    /// Run the command (with the runner's user context when `as_user`), then
    /// send `Exited` or `SpawnFailed`.
    Run { command: CommandLine, as_user: bool },
    /// Find the recovery command of the action at `action_index` (it may
    /// query the system), then send `Recovery`.
    FindRecovery { action_index: usize },
    /// The run is over: the results of the actions that ran, in order.
    Finished(Vec<ActionResult>),
    /// The run stopped.
    Failed(RunError),
}

/// The plain content of a step.
pub enum RunStepView {
    Progress {
        action: Option<Seq<char>>,
        action_nr: Option<int>,
        total_actions: int,
        completed: int,
        status: ActionStatus,
    },
    Run { command: (Seq<char>, Seq<Seq<char>>), as_user: bool },
    FindRecovery { action_index: int },
    Finished(Seq<ActionResultView>),
    TooManyActions,
    SpawnFailed { stage: CommandStage, message: Seq<char> },
}

impl View for RunStep {
    type V = RunStepView;

    open spec fn view(&self) -> RunStepView {
        match self {
            RunStep::Progress(p) => RunStepView::Progress {
                action: match p.action {
                    Some(a) => Some(a@),
                    None => None,
                },
                action_nr: match p.action_nr {
                    Some(n) => Some(n as int),
                    None => None,
                },
                total_actions: p.total_actions as int,
                completed: p.completed as int,
                status: p.status,
            },
            RunStep::Run { command, as_user } => RunStepView::Run {
                command: command@,
                as_user: *as_user,
            },
            RunStep::FindRecovery { action_index } => RunStepView::FindRecovery {
                action_index: *action_index as int,
            },
            RunStep::Finished(results) => RunStepView::Finished(result_views(results@)),
            RunStep::Failed(RunError::TooManyActions) => RunStepView::TooManyActions,
            RunStep::Failed(RunError::Spawn { stage, message }) => RunStepView::SpawnFailed {
                stage: *stage,
                message: message@,
            },
        }
    }
}

/// The most actions a progress report can count.
pub open spec fn max_actions() -> int {
    i32::MAX as int
}

/// The line that opens the output of the action numbered `nr` (from 1).
pub open spec fn action_header(nr: int) -> Seq<char> {
    "==== Running action "@ + decimal(nr as nat) + " ====\n"@
}

/// The line written before a recovery command's output.
pub open spec fn recovery_marker() -> Seq<char> {
    "\n== Running on_error command\n"@
}

/// The line written before the retried command's output.
pub open spec fn retry_marker() -> Seq<char> {
    "\n== Retrying action command\n"@
}

/// The state a run starts in.
pub open spec fn initial_state() -> RunStateView {
    RunStateView {
        next: 0,
        phase: RunPhase::Ready,
        stdout: Seq::empty(),
        stderr: Seq::empty(),
        results: Seq::empty(),
    }
}

/// `s` with its phase set.
pub open spec fn with_phase(s: RunStateView, phase: RunPhase) -> RunStateView {
    RunStateView { phase, ..s }
}

/// Announcing action `i`: a progress report that names it.
pub open spec fn announce(r: RunnerView, s: RunStateView, i: int) -> (RunStateView, RunStepView) {
    if r.queue.len() > max_actions() {
        (with_phase(s, RunPhase::Done), RunStepView::TooManyActions)
    } else {
        (
            RunStateView { next: i, phase: RunPhase::Announced, ..s },
            RunStepView::Progress {
                action: Some(r.queue[i].display()),
                action_nr: Some(i + 1),
                total_actions: r.queue.len() as int,
                completed: i,
                status: ActionStatus::Running,
            },
        )
    }
}

/// Announcing the end of the run.
pub open spec fn close(r: RunnerView, s: RunStateView) -> (RunStateView, RunStepView) {
    if r.queue.len() > max_actions() {
        (with_phase(s, RunPhase::Done), RunStepView::TooManyActions)
    } else {
        (
            with_phase(s, RunPhase::Closing),
            RunStepView::Progress {
                action: None,
                action_nr: None,
                total_actions: r.queue.len() as int,
                completed: r.queue.len() as int,
                status: ActionStatus::Finished,
            },
        )
    }
}

/// The current action ended (successfully or not): its result is recorded;
/// the run goes on with the next action unless this was the last one or it
/// failed without being allowed to.
pub open spec fn complete(r: RunnerView, s: RunStateView, success: bool) -> (
    RunStateView,
    RunStepView,
) {
    let a = r.queue[s.next];
    let result = ActionResultView {
        action: a,
        success,
        stdout: trim(s.stdout),
        stderr: trim(s.stderr),
    };
    let s2 = RunStateView { results: s.results.push(result), next: s.next + 1, ..s };
    if (!a.fail_allowed() && !success) || s.next + 1 >= r.queue.len() {
        close(r, s2)
    } else {
        announce(r, s2, s.next + 1)
    }
}

/// Whether the run in phase `phase` accepts the event `e`.
pub open spec fn accepts(phase: RunPhase, e: RunEventView) -> bool {
    match phase {
        RunPhase::Ready | RunPhase::Announced | RunPhase::Closing => e is Proceed,
        RunPhase::Main | RunPhase::Recovery | RunPhase::Retry => e is Exited || e is SpawnFailed,
        RunPhase::AwaitRecovery => e is Recovery,
        RunPhase::Done => false,
    }
}

/// One step of a run of `r`: from state `s` on event `e`, the next state
/// and what the caller is asked to do.
pub open spec fn run_step(r: RunnerView, s: RunStateView, e: RunEventView) -> (
    RunStateView,
    RunStepView,
) {
    match s.phase {
        RunPhase::Ready => if s.next < r.queue.len() {
            announce(r, s, s.next)
        } else {
            close(r, s)
        },
        RunPhase::Announced => {
            let a = r.queue[s.next];
            (
                RunStateView {
                    phase: RunPhase::Main,
                    stdout: action_header(s.next + 1),
                    stderr: Seq::empty(),
                    ..s
                },
                RunStepView::Run {
                    command: a.command(r.user_context.1),
                    as_user: r.elevate && !a.needs_elevation(),
                },
            )
        },
        RunPhase::Main => match e {
            RunEventView::Exited { success, stdout, stderr } => {
                let s2 = RunStateView {
                    stdout: s.stdout + stdout,
                    stderr: s.stderr + stderr,
                    ..s
                };
                if success {
                    complete(r, s2, true)
                } else {
                    (
                        with_phase(s2, RunPhase::AwaitRecovery),
                        RunStepView::FindRecovery { action_index: s.next },
                    )
                }
            },
            RunEventView::SpawnFailed { message } => (
                with_phase(s, RunPhase::Done),
                RunStepView::SpawnFailed { stage: CommandStage::Action, message },
            ),
            _ => (s, RunStepView::TooManyActions),
        },
        RunPhase::AwaitRecovery => match e {
            RunEventView::Recovery(None) => complete(r, s, false),
            RunEventView::Recovery(Some(c)) => (
                RunStateView {
                    phase: RunPhase::Recovery,
                    stdout: s.stdout + recovery_marker(),
                    ..s
                },
                RunStepView::Run { command: c, as_user: false },
            ),
            _ => (s, RunStepView::TooManyActions),
        },
        RunPhase::Recovery => match e {
            RunEventView::Exited { stdout, stderr, .. } => (
                RunStateView {
                    phase: RunPhase::Retry,
                    stdout: s.stdout + stdout + retry_marker(),
                    stderr: s.stderr + stderr,
                    ..s
                },
                RunStepView::Run {
                    command: r.queue[s.next].command(r.user_context.1),
                    as_user: false,
                },
            ),
            RunEventView::SpawnFailed { message } => (
                with_phase(s, RunPhase::Done),
                RunStepView::SpawnFailed { stage: CommandStage::OnError, message },
            ),
            _ => (s, RunStepView::TooManyActions),
        },
        RunPhase::Retry => match e {
            RunEventView::Exited { success, stdout, stderr } => complete(
                r,
                RunStateView { stdout: s.stdout + stdout, stderr: s.stderr + stderr, ..s },
                success,
            ),
            RunEventView::SpawnFailed { message } => (
                with_phase(s, RunPhase::Done),
                RunStepView::SpawnFailed { stage: CommandStage::Retry, message },
            ),
            _ => (s, RunStepView::TooManyActions),
        },
        RunPhase::Closing => (
            RunStateView { phase: RunPhase::Done, results: Seq::empty(), ..s },
            RunStepView::Finished(s.results),
        ),
        RunPhase::Done => (s, RunStepView::TooManyActions),
    }
}

/// What holds of a run's state between steps: the results are those of the
/// first actions of the queue, in order; every one of them succeeded or was
/// allowed to fail, except that the last one before the end may have failed.
pub open spec fn run_invariant(r: RunnerView, s: RunStateView) -> bool {
    let n = r.queue.len() as int;
    &&& 0 <= s.next <= n
    &&& s.results.len() <= n
    &&& forall|k: int| 0 <= k < s.results.len() ==> (#[trigger] s.results[k]).action == r.queue[k]
    &&& match s.phase {
        RunPhase::Ready => s.results.len() == s.next && forall|k: int|
            0 <= k < s.results.len() ==> (#[trigger] s.results[k]).success
                || s.results[k].action.fail_allowed(),
        RunPhase::Announced | RunPhase::Main | RunPhase::AwaitRecovery | RunPhase::Recovery
        | RunPhase::Retry => s.next < n && s.results.len() == s.next && forall|k: int|
            0 <= k < s.results.len() ==> (#[trigger] s.results[k]).success
                || s.results[k].action.fail_allowed(),
        RunPhase::Closing => finished_correctly(r, s.results),
        RunPhase::Done => true,
    }
}

/// What the results of a finished run look like: each belongs to the action
/// at the same place; all but the last succeeded or were allowed to fail;
/// and either every action ran or the last one failed without being allowed to.
pub open spec fn finished_correctly(r: RunnerView, results: Seq<ActionResultView>) -> bool {
    let n = r.queue.len() as int;
    &&& results.len() <= n
    &&& forall|k: int| 0 <= k < results.len() ==> (#[trigger] results[k]).action == r.queue[k]
    &&& forall|k: int|
        0 <= k < results.len() - 1 ==> (#[trigger] results[k]).success
            || results[k].action.fail_allowed()
    &&& (results.len() == n || (results.len() > 0 && !results.last().success
        && !results.last().action.fail_allowed()))
}

fn header(nr: usize) -> (r: String)
    ensures
        r@ == action_header(nr as int),
{
    let mut r = owned("==== Running action ");
    push_decimal(&mut r, nr as u64);
    push_str(&mut r, " ====\n");
    r
}

impl ActionRunner {
    /// The state a run of this runner starts in; send it `Proceed` first.
    pub fn start_run(&self) -> (r: RunState)
        ensures
            r@ == initial_state(),
    {
        let r = RunState {
            next: 0,
            phase: RunPhase::Ready,
            stdout: String::new(),
            stderr: String::new(),
            results: Vec::new(),
        };
        assert(r@.results =~= Seq::<ActionResultView>::empty());
        r
    }

    /// Whether a run in `state` accepts `event`.
    pub fn run_accepts(&self, state: &RunState, event: &RunEvent) -> (r: bool)
        ensures
            r == accepts(state.phase, event@),
    {
        match state.phase {
            RunPhase::Ready | RunPhase::Announced | RunPhase::Closing => match event {
                RunEvent::Proceed => true,
                _ => false,
            },
            RunPhase::Main | RunPhase::Recovery | RunPhase::Retry => match event {
                RunEvent::Exited { .. } | RunEvent::SpawnFailed { .. } => true,
                _ => false,
            },
            RunPhase::AwaitRecovery => match event {
                RunEvent::Recovery(_) => true,
                _ => false,
            },
            RunPhase::Done => false,
        }
    }

    fn announce_exec(&self, state: RunState, i: usize) -> (r: (RunState, RunStep))
        requires
            i < self@.queue.len(),
        ensures
            (r.0@, r.1@) == announce(self@, state@, i as int),
    {
        let queue = self.queue();
        if queue.len() > i32::MAX as usize {
            return (RunState { phase: RunPhase::Done, ..state }, RunStep::Failed(RunError::TooManyActions));
        }
        let report = ProgressReport {
            action: Some(queue[i].to_display_string()),
            action_nr: Some((i + 1) as i32),
            total_actions: queue.len() as i32,
            completed: i,
            status: ActionStatus::Running,
        };
        (RunState { next: i, phase: RunPhase::Announced, ..state }, RunStep::Progress(report))
    }

    fn close_exec(&self, state: RunState) -> (r: (RunState, RunStep))
        ensures
            (r.0@, r.1@) == close(self@, state@),
    {
        let queue = self.queue();
        if queue.len() > i32::MAX as usize {
            return (RunState { phase: RunPhase::Done, ..state }, RunStep::Failed(RunError::TooManyActions));
        }
        let report = ProgressReport {
            action: None,
            action_nr: None,
            total_actions: queue.len() as i32,
            completed: queue.len(),
            status: ActionStatus::Finished,
        };
        (RunState { phase: RunPhase::Closing, ..state }, RunStep::Progress(report))
    }

    fn complete_exec(&self, state: RunState, success: bool) -> (r: (RunState, RunStep))
        requires
            state@.next < self@.queue.len(),
        ensures
            (r.0@, r.1@) == complete(self@, state@, success),
    {
        let queue = self.queue();
        assert(queue@.len() == self@.queue.len());
        let n = queue.len();
        let i = state.next;
        let action = &queue[i];
        let result = ActionResult::from_output(
            action,
            success,
            state.stdout.as_str(),
            state.stderr.as_str(),
        );
        let stop = !action.fail_allowed() && !success;
        let mut results = state.results;
        let ghost before = results@;
        results.push(result);
        let s2 = RunState {
            next: i + 1,
            phase: state.phase,
            stdout: state.stdout,
            stderr: state.stderr,
            results,
        };
        assert(s2@.results =~= state@.results.push(result@));
        if stop || i + 1 >= n {
            self.close_exec(s2)
        } else {
            self.announce_exec(s2, i + 1)
        }
    }

    /// One step of a run: the next state and what the caller is to do.
    pub fn run_step(&self, state: RunState, event: RunEvent) -> (r: (RunState, RunStep))
        requires
            accepts(state.phase, event@),
            run_invariant(self@, state@),
        ensures
            (r.0@, r.1@) == run_step(self@, state@, event@),
    {
        let queue = self.queue();
        match state.phase {
            RunPhase::Ready => {
                if state.next < queue.len() {
                    let i = state.next;
                    self.announce_exec(state, i)
                } else {
                    self.close_exec(state)
                }
            },
            RunPhase::Announced => {
                assert(queue@.len() == self@.queue.len());
                let n = queue.len();
                assert(state.next < n);
                let action = &queue[state.next];
                let command = action.get_command(self.user_context());
                let as_user = self.needs_elevation() && !action.needs_elevation();
                let s2 = RunState {
                    next: state.next,
                    phase: RunPhase::Main,
                    stdout: header(state.next + 1),
                    stderr: String::new(),
                    results: state.results,
                };
                (s2, RunStep::Run { command, as_user })
            },
            RunPhase::Main => match event {
                RunEvent::Exited { success, stdout, stderr } => {
                    let mut out = state.stdout;
                    out.append(stdout.as_str());
                    let mut err = state.stderr;
                    err.append(stderr.as_str());
                    let s2 = RunState {
                        next: state.next,
                        phase: state.phase,
                        stdout: out,
                        stderr: err,
                        results: state.results,
                    };
                    if success {
                        self.complete_exec(s2, true)
                    } else {
                        let i = s2.next;
                        (
                            RunState { phase: RunPhase::AwaitRecovery, ..s2 },
                            RunStep::FindRecovery { action_index: i },
                        )
                    }
                },
                RunEvent::SpawnFailed { message } => (
                    RunState { phase: RunPhase::Done, ..state },
                    RunStep::Failed(RunError::Spawn { stage: CommandStage::Action, message }),
                ),
                _ => {
                    assert(false);
                    (state, RunStep::Failed(RunError::TooManyActions))
                },
            },
            RunPhase::AwaitRecovery => match event {
                RunEvent::Recovery(None) => self.complete_exec(state, false),
                RunEvent::Recovery(Some(command)) => {
                    let mut out = state.stdout;
                    out.append("\n== Running on_error command\n");
                    (
                        RunState {
                            next: state.next,
                            phase: RunPhase::Recovery,
                            stdout: out,
                            stderr: state.stderr,
                            results: state.results,
                        },
                        RunStep::Run { command, as_user: false },
                    )
                },
                _ => {
                    assert(false);
                    (state, RunStep::Failed(RunError::TooManyActions))
                },
            },
            RunPhase::Recovery => match event {
                RunEvent::Exited { stdout, stderr, .. } => {
                    let mut out = state.stdout;
                    out.append(stdout.as_str());
                    out.append("\n== Retrying action command\n");
                    let mut err = state.stderr;
                    err.append(stderr.as_str());
                    let command = queue[state.next].get_command(self.user_context());
                    (
                        RunState {
                            next: state.next,
                            phase: RunPhase::Retry,
                            stdout: out,
                            stderr: err,
                            results: state.results,
                        },
                        RunStep::Run { command, as_user: false },
                    )
                },
                RunEvent::SpawnFailed { message } => (
                    RunState { phase: RunPhase::Done, ..state },
                    RunStep::Failed(RunError::Spawn { stage: CommandStage::OnError, message }),
                ),
                _ => {
                    assert(false);
                    (state, RunStep::Failed(RunError::TooManyActions))
                },
            },
            RunPhase::Retry => match event {
                RunEvent::Exited { success, stdout, stderr } => {
                    let mut out = state.stdout;
                    out.append(stdout.as_str());
                    let mut err = state.stderr;
                    err.append(stderr.as_str());
                    let s2 = RunState {
                        next: state.next,
                        phase: state.phase,
                        stdout: out,
                        stderr: err,
                        results: state.results,
                    };
                    self.complete_exec(s2, success)
                },
                RunEvent::SpawnFailed { message } => (
                    RunState { phase: RunPhase::Done, ..state },
                    RunStep::Failed(RunError::Spawn { stage: CommandStage::Retry, message }),
                ),
                _ => {
                    assert(false);
                    (state, RunStep::Failed(RunError::TooManyActions))
                },
            },
            RunPhase::Closing => {
                let results = state.results;
                let s2 = RunState {
                    next: state.next,
                    phase: RunPhase::Done,
                    stdout: state.stdout,
                    stderr: state.stderr,
                    results: Vec::new(),
                };
                assert(s2@.results =~= Seq::<ActionResultView>::empty());
                (s2, RunStep::Finished(results))
            },
            RunPhase::Done => {
                assert(false);
                (state, RunStep::Failed(RunError::TooManyActions))
            },
        }
    }
}

} // verus!
