//! The batch runner behind the `run-batch` command: a queue of systemd
//! actions run in order, under `pkexec` when one of them needs root.
pub mod systemd;

use crate::batch::systemd::SystemdAction;
use crate::command::CommandLine;
use crate::text::{trim, trim_str};
use vstd::prelude::*;

verus! {

/// One step of a batch.
#[derive(PartialEq, Eq, Debug)]
pub enum Action {
    SystemD(SystemdAction),
}

impl Action {
    /// Whether the action needs root.
    pub open spec fn spec_needs_elevation(&self) -> bool {
        match self {
            Action::SystemD(a) => a.spec_needs_elevation(),
        }
    }

    /// The command that applies the action.
    pub open spec fn spec_command(&self) -> (Seq<char>, Seq<Seq<char>>) {
        match self {
            Action::SystemD(a) => a.spec_command(),
        }
    }

    /// The command that applies the action.
    pub fn get_command(&self) -> (r: CommandLine)
        ensures
            r@ == self.spec_command(),
    {
        match self {
            Action::SystemD(a) => a.get_command(),
        }
    }

    /// Whether the action needs root.
    pub fn needs_elevation(&self) -> (r: bool)
        ensures
            r == self.spec_needs_elevation(),
    {
        match self {
            Action::SystemD(a) => a.needs_elevation(),
        }
    }
}

/// What running one action of a batch gave.
#[derive(Debug)]
pub struct ActionResult {
    action: Action,
    success: bool,
    stdout: String,
    stderr: String,
}

impl ActionResult {
    /// The result of `action` from whether its command succeeded and what it
    /// printed; the output is kept without surrounding whitespace.
    pub fn from_output(action: Action, success: bool, stdout: &str, stderr: &str) -> (r: Self)
        ensures
            r.spec_action() == action,
            r.spec_success() == success,
            r.spec_stdout() == trim(stdout@),
            r.spec_stderr() == trim(stderr@),
    {
        ActionResult { action, success, stdout: trim_str(stdout), stderr: trim_str(stderr) }
    }

    pub closed spec fn spec_action(&self) -> Action {
        self.action
    }

    pub closed spec fn spec_success(&self) -> bool {
        self.success
    }

    pub closed spec fn spec_stdout(&self) -> Seq<char> {
        self.stdout@
    }

    pub closed spec fn spec_stderr(&self) -> Seq<char> {
        self.stderr@
    }

    /// The action the result is for.
    pub fn action(&self) -> (r: &Action)
        ensures
            *r == self.spec_action(),
    {
        &self.action
    }

    /// Whether the action's command succeeded.
    pub fn success(&self) -> (r: bool)
        ensures
            r == self.spec_success(),
    {
        self.success
    }

    /// What the command printed, trimmed.
    pub fn stdout(&self) -> (r: &String)
        ensures
            r@ == self.spec_stdout(),
    {
        &self.stdout
    }

    /// What the command printed as errors, trimmed.
    pub fn stderr(&self) -> (r: &String)
        ensures
            r@ == self.spec_stderr(),
    {
        &self.stderr
    }
}

/// A queue of actions; it runs elevated when some action needs root.
#[derive(Debug)]
pub struct ActionRunner {
    queue: Vec<Action>,
    elevate: bool,
}

/// Whether some action of the queue needs root.
pub open spec fn any_needs_elevation(q: Seq<Action>) -> bool {
    exists|i: int| 0 <= i < q.len() && #[trigger] q[i].spec_needs_elevation()
}

/// How a batch runs.
#[derive(PartialEq, Eq, Structural, Clone, Copy, Debug)]
pub enum RunMode {
    /// In this process.
    Direct,
    /// In a copy of this program started with root rights.
    Elevated,
}

impl ActionRunner {
    #[verifier::type_invariant]
    spec fn elevate_matches_queue(&self) -> bool {
        self.elevate == any_needs_elevation(self.queue@)
    }

    /// The queued actions, in order.
    pub closed spec fn spec_queue(&self) -> Seq<Action> {
        self.queue@
    }

    /// Whether the batch runs elevated: exactly when some action needs root.
    pub closed spec fn spec_elevate(&self) -> bool {
        self.elevate
    }

    /// An empty batch.
    pub fn new() -> (r: Self)
        ensures
            r.spec_queue() == Seq::<Action>::empty(),
            !r.spec_elevate(),
    {
        let r = ActionRunner { queue: Vec::new(), elevate: false };
        assert(r.queue@ =~= Seq::<Action>::empty());
        r
    }

    /// Appends an action; the batch runs elevated from then on if it needs root.
    pub fn add(&mut self, action: Action)
        ensures
            final(self).spec_queue() == old(self).spec_queue().push(action),
            final(self).spec_elevate() == (old(self).spec_elevate() || action.spec_needs_elevation()),
            final(self).spec_elevate() == any_needs_elevation(final(self).spec_queue()),
    {
        proof {
            use_type_invariant(&*self);
        }
        let needs = action.needs_elevation();
        let ghost a = action;
        let ghost q0 = self.queue@;
        let old_elevate = self.elevate;
        let mut taken = ActionRunner::new();
        std::mem::swap(self, &mut taken);
        let ActionRunner { mut queue, .. } = taken;
        queue.push(action);
        let elevate = old_elevate || needs;
        proof {
            let q = q0.push(a);
            if any_needs_elevation(q0) {
                let i = choose|i: int| 0 <= i < q0.len() && #[trigger] q0[i].spec_needs_elevation();
                assert(q[i] == q0[i]);
            }
            if needs {
                assert(q[q0.len() as int] == a);
            }
            if any_needs_elevation(q) {
                let i = choose|i: int| 0 <= i < q.len() && #[trigger] q[i].spec_needs_elevation();
                if i < q0.len() {
                    assert(q0[i] == q[i]);
                }
            }
        }
        *self = ActionRunner { queue, elevate };
    }

    /// How the batch runs: elevated exactly when some action needs root.
    pub fn run_mode(&self) -> (r: RunMode)
        ensures
            r == (if self.spec_elevate() {
                RunMode::Elevated
            } else {
                RunMode::Direct
            }),
            (r == RunMode::Elevated) == any_needs_elevation(self.spec_queue()),
    {
        proof {
            use_type_invariant(self);
        }
        if self.elevate {
            RunMode::Elevated
        } else {
            RunMode::Direct
        }
    }

    /// The queued actions, in order.
    pub fn queue(&self) -> (r: &Vec<Action>)
        ensures
            r@ == self.spec_queue(),
    {
        &self.queue
    }

    /// The queued actions, taking the batch apart.
    pub fn into_queue(self) -> (r: Vec<Action>)
        ensures
            r@ == self.spec_queue(),
    {
        self.queue
    }

    /// The command that runs a batch, given as JSON, with root rights: this
    /// program's `run-batch --json <json>` through `sudo` in a development
    /// container, else through `pkexec`.
    pub fn elevated_command(in_devcontainer: bool, current_exe: &str, json: &str) -> (r:
        CommandLine)
        ensures
            r@ == (
                if in_devcontainer {
                    "sudo"@
                } else {
                    "pkexec"@
                },
                seq![current_exe@, "run-batch"@, "--json"@, json@],
            ),
    {
        let mut command = if in_devcontainer {
            CommandLine::new("sudo")
        } else {
            CommandLine::new("pkexec")
        };
        command.arg_str(current_exe);
        command.arg_str("run-batch");
        command.arg_str("--json");
        command.arg_str(json);
        assert(command@.1 =~= seq![current_exe@, "run-batch"@, "--json"@, json@]);
        command
    }
}


/// What running one command of a batch gave.
#[derive(Debug)]
pub enum CommandOutcome {
    /// The command ran: whether it succeeded and what it printed.
    Ran { success: bool, stdout: String, stderr: String },
    /// The command could not be started.
    SpawnFailed { message: String },
}

/// A command of a batch could not be started; the batch has no results.
#[derive(Debug)]
pub struct BatchSpawnFailed {
    /// The place of the action whose command could not be started.
    pub index: usize,
    /// Why it could not be started.
    pub message: String,
}

/// How many commands of a batch ran: as many as there are both actions
/// and outcomes.
pub open spec fn paired_len(actions: nat, outcomes: nat) -> int {
    if actions <= outcomes {
        actions as int
    } else {
        outcomes as int
    }
}

/// Whether the result `r` records `action` and the outcome `o` of its command.
pub open spec fn records(r: ActionResult, action: Action, o: CommandOutcome) -> bool {
    match o {
        CommandOutcome::Ran { success, stdout, stderr } => {
            &&& r.spec_action() == action
            &&& r.spec_success() == success
            &&& r.spec_stdout() == trim(stdout@)
            &&& r.spec_stderr() == trim(stderr@)
        },
        CommandOutcome::SpawnFailed { .. } => false,
    }
}

/// The results of a batch from the outcomes of its commands, run in order
/// (`outcomes[i]` for `queue[i]`, as far as both go): when a command could
/// not be started, the first such failure and no results; otherwise one
/// result per outcome, recording its action and outcome, in order.
pub fn batch_results(queue: Vec<Action>, outcomes: &Vec<CommandOutcome>) -> (r: Result<
    Vec<ActionResult>,
    BatchSpawnFailed,
>)
    ensures
        r matches Ok(rs) ==> rs@.len() == paired_len(queue@.len(), outcomes@.len()) && forall|i: int|
            0 <= i < rs@.len() ==> records(#[trigger] rs@[i], queue@[i], outcomes@[i]),
        r matches Err(e) ==> e.index < paired_len(queue@.len(), outcomes@.len())
            && (outcomes@[e.index as int] matches CommandOutcome::SpawnFailed { message }
            && e.message@ == message@) && forall|i: int|
            0 <= i < e.index ==> #[trigger] outcomes@[i] is Ran,
        r is Ok <==> forall|i: int|
            0 <= i < paired_len(queue@.len(), outcomes@.len()) ==> #[trigger] outcomes@[i] is Ran,
{
    let ghost q0 = queue@;
    let m: usize = if queue.len() <= outcomes.len() {
        queue.len()
    } else {
        outcomes.len()
    };
    let mut rest = queue;
    let mut results: Vec<ActionResult> = Vec::new();
    let mut i: usize = 0;
    while i < m
        invariant
            q0 == queue@,
            m == paired_len(q0.len(), outcomes@.len()),
            m <= q0.len(),
            m <= outcomes@.len(),
            i <= m,
            rest@ == q0.skip(i as int),
            results@.len() == i,
            forall|j: int| 0 <= j < i ==> records(#[trigger] results@[j], q0[j], outcomes@[j]),
            forall|j: int| 0 <= j < i ==> #[trigger] outcomes@[j] is Ran,
        decreases m - i,
    {
        let action = rest.remove(0);
        assert(action == q0[i as int]);
        assert(rest@ =~= q0.skip(i + 1));
        match &outcomes[i] {
            CommandOutcome::Ran { success, stdout, stderr } => {
                let result = ActionResult::from_output(action, *success, stdout.as_str(), stderr.as_str());
                results.push(result);
            },
            CommandOutcome::SpawnFailed { message } => {
                assert(!(outcomes@[i as int] is Ran));
                return Err(BatchSpawnFailed { index: i, message: message.clone() });
            },
        }
        i = i + 1;
    }
    Ok(results)
}

} // verus!
