//! Runners: named queues of actions, their identity and their results.
use crate::action::{Action, ActionView};
use crate::text::{list_token, opt_flag_token, push_list_token, push_opt_flag_token, push_token, token, trim, trim_str};
use crate::user_context::UserExecutionContext;
use std::collections::hash_map::DefaultHasher;
use std::hash::Hasher;
use std::sync::Arc;
use vstd::prelude::*;
use vstd::std_specs::hash::DefaultHasherAdditionalSpecFns;
use vstd::utf8::encode_utf8;

verus! {

/// What running one action gave.
#[derive(Debug)]
pub struct ActionResult {
    pub action: Action,
    pub success: bool,
    pub stdout: String,
    pub stderr: String,
}

impl ActionResult {
    /// The result of `action` from whether its command succeeded and what it
    /// printed; the output is kept without surrounding whitespace.
    pub fn from_output(action: &Action, success: bool, stdout: &str, stderr: &str) -> (r: Self)
        ensures
            r.action@ == action@,
            r.success == success,
            r.stdout@ == trim(stdout@),
            r.stderr@ == trim(stderr@),
    {
        ActionResult {
            action: action.clone(),
            success,
            stdout: trim_str(stdout),
            stderr: trim_str(stderr),
        }
    }
}

/// Whether a runner is still working through its queue.
#[derive(PartialEq, Eq, Structural, Clone, Copy, Debug)]
pub enum ActionStatus {
    Running,
    Finished,
}

/// The views of a queue of actions.
pub open spec fn action_views(q: Seq<Action>) -> Seq<ActionView> {
    q.map_values(|a: Action| a@)
}

/// Whether some action of the queue needs root.
pub open spec fn queue_needs_elevation(q: Seq<ActionView>) -> bool {
    exists|i: int| 0 <= i < q.len() && #[trigger] q[i].needs_elevation()
}

/// The plain content of a runner.
pub struct RunnerView {
    pub name: Seq<char>,
    pub queue: Seq<ActionView>,
    pub elevate: bool,
    pub is_undo: bool,
    pub user_context: <UserExecutionContext as View>::V,
}

/// A text that holds everything that identifies a runner: its name, the key
/// of each action, and its two flags (the user context is not part of it).
pub open spec fn runner_key(v: RunnerView) -> Seq<char> {
    token(v.name) + list_token(v.queue.map_values(|a: ActionView| a.key())) + opt_flag_token(
        Some(v.elevate),
    ) + opt_flag_token(Some(v.is_undo))
}

/// The identity of a runner: the default hasher's digest of its key's UTF-8 bytes.
pub open spec fn runner_id(v: RunnerView) -> u64 {
    DefaultHasher::spec_finish(seq![encode_utf8(runner_key(v))])
}

/// The runner that reverts `v`: each action undone, in the same order, and
/// marked as an undo.
pub open spec fn undo_view(v: RunnerView) -> RunnerView {
    RunnerView {
        name: v.name,
        queue: v.queue.map_values(|a: ActionView| a.undo()),
        elevate: v.elevate,
        is_undo: true,
        user_context: v.user_context,
    }
}

/// The runner `ActionRunner::new` builds.
pub open spec fn new_view(
    name: Seq<char>,
    actions: Seq<ActionView>,
    user_context: <UserExecutionContext as View>::V,
) -> RunnerView {
    RunnerView {
        name,
        queue: actions,
        elevate: queue_needs_elevation(actions),
        is_undo: false,
        user_context,
    }
}

/// A named queue of actions that runs as one task. It needs root when some
/// action does; the actions that do not need root then run as the user of
/// its context.
#[derive(Debug)]
pub struct ActionRunner {
    name: String,
    queue: Vec<Action>,
    elevate: bool,
    is_undo: bool,
    user_context: UserExecutionContext,
}

impl View for ActionRunner {
    type V = RunnerView;

    closed spec fn view(&self) -> RunnerView {
        RunnerView {
            name: self.name@,
            queue: action_views(self.queue@),
            elevate: self.elevate,
            is_undo: self.is_undo,
            user_context: self.user_context@,
        }
    }
}

/// A copy of a list of actions.
fn copy_actions(actions: &[Action]) -> (r: Vec<Action>)
    ensures
        action_views(r@) == action_views(actions@),
{
    let mut r: Vec<Action> = Vec::new();
    let mut i: usize = 0;
    while i < actions.len()
        invariant
            i <= actions@.len(),
            r@.len() == i,
            forall|j: int| 0 <= j < i ==> (#[trigger] r@[j])@ == actions@[j]@,
        decreases actions@.len() - i,
    {
        r.push(actions[i].clone());
        i = i + 1;
    }
    assert(action_views(r@) =~= action_views(actions@));
    r
}

impl ActionRunner {
    #[verifier::type_invariant]
    spec fn elevate_matches_queue(&self) -> bool {
        self.elevate == queue_needs_elevation(action_views(self.queue@))
    }

    /// A runner named `name` that runs copies of `actions` in order for the
    /// given user.
    pub fn new(name: &str, actions: &[Action], user_context: &UserExecutionContext) -> (r: Arc<
        Self,
    >)
        ensures
            r@ == new_view(name@, action_views(actions@), user_context@),
    {
        let queue = copy_actions(actions);
        let mut elevate = false;
        let mut i: usize = 0;
        while i < queue.len()
            invariant
                i <= queue@.len(),
                elevate == exists|j: int|
                    0 <= j < i && #[trigger] action_views(queue@)[j].needs_elevation(),
            decreases queue@.len() - i,
        {
            if queue[i].needs_elevation() {
                elevate = true;
                assert(action_views(queue@)[i as int].needs_elevation());
            }
            i = i + 1;
        }
        let runner = ActionRunner {
            name: crate::text::owned(name),
            queue,
            elevate,
            is_undo: false,
            user_context: user_context.duplicate(),
        };
        Arc::new(runner)
    }

    /// The runner's name.
    pub fn name(&self) -> (r: &String)
        ensures
            r@ == self@.name,
    {
        &self.name
    }

    /// The runner's actions, in order.
    pub fn queue(&self) -> (r: &Vec<Action>)
        ensures
            action_views(r@) == self@.queue,
    {
        &self.queue
    }

    /// The user the runner's actions run for.
    pub fn user_context(&self) -> (r: &UserExecutionContext)
        ensures
            r@ == self@.user_context,
    {
        &self.user_context
    }

    /// Whether this runner reverts another.
    pub fn is_undo(&self) -> (r: bool)
        ensures
            r == self@.is_undo,
    {
        self.is_undo
    }

    /// Appends the runner's key.
    #[verifier::rlimit(40)]
    #[verifier::spinoff_prover]
    fn push_key(&self, out: &mut String)
        ensures
            final(out)@ == old(out)@ + runner_key(self@),
    {
        let ghost o0 = out@;
        push_token(out, self.name.as_str());
        let mut count = String::new();
        crate::text::push_decimal(&mut count, self.queue.len() as u64);
        push_token(out, count.as_str());
        let ghost keys = self@.queue.map_values(|a: ActionView| a.key());
        let ghost head = out@;
        let mut i: usize = 0;
        while i < self.queue.len()
            invariant
                i <= self.queue@.len(),
                keys == self@.queue.map_values(|a: ActionView| a.key()),
                self@.queue == action_views(self.queue@),
                out@ == head + crate::text::concat_tokens(keys.take(i as int)),
            decreases self.queue@.len() - i,
        {
            let mut k = String::new();
            self.queue[i].push_key(&mut k);
            push_token(out, k.as_str());
            proof {
                assert(keys.take(i + 1).drop_last() =~= keys.take(i as int));
                assert(keys[i as int] == self.queue@[i as int]@.key());
            }
            assert(out@ =~= head + crate::text::concat_tokens(keys.take(i + 1)));
            i = i + 1;
        }
        assert(keys.take(self.queue@.len() as int) =~= keys);
        push_opt_flag_token(out, Some(self.elevate));
        push_opt_flag_token(out, Some(self.is_undo));
        assert(out@ =~= o0 + runner_key(self@));
    }

    /// The runner's identity, the same for every runner with the same name,
    /// actions and flags; an elevated helper process finds a runner by it.
    pub fn get_id(&self) -> (r: u64)
        ensures
            r == runner_id(self@),
    {
        let mut key = String::new();
        self.push_key(&mut key);
        let mut hasher = DefaultHasher::new();
        hasher.write(key.as_str().as_bytes());
        let r = hasher.finish();
        assert(hasher@ =~= seq![encode_utf8(runner_key(self@))]);
        r
    }

    /// The runner that reverts this one.
    pub fn to_undo(&self) -> (r: Arc<Self>)
        ensures
            r@ == undo_view(self@),
    {
        proof {
            use_type_invariant(self);
        }
        let mut queue: Vec<Action> = Vec::new();
        let mut i: usize = 0;
        while i < self.queue.len()
            invariant
                i <= self.queue@.len(),
                queue@.len() == i,
                forall|j: int| 0 <= j < i ==> (#[trigger] queue@[j])@ == self.queue@[j]@.undo(),
            decreases self.queue@.len() - i,
        {
            queue.push(self.queue[i].to_undo());
            i = i + 1;
        }
        proof {
            assert(action_views(queue@) =~= action_views(self.queue@).map_values(
                |a: ActionView| a.undo(),
            ));
            crate::laws::lemma_undo_keeps_elevation(action_views(self.queue@));
        }
        let runner = ActionRunner {
            name: self.name.clone(),
            queue,
            elevate: self.elevate,
            is_undo: true,
            user_context: self.user_context.duplicate(),
        };
        Arc::new(runner)
    }

    /// Whether the runner needs root: exactly when one of its actions does.
    pub fn needs_elevation(&self) -> (r: bool)
        ensures
            r == self@.elevate,
            r == queue_needs_elevation(self@.queue),
    {
        proof {
            use_type_invariant(self);
        }
        self.elevate
    }
}

} // verus!
