//! The bookkeeping of the task queue: which runners are queued or running,
//! the identity of each run, and which listeners hear which events.
use crate::action_runner::{runner_id, ActionRunner};
use crate::text::{decimal, push_decimal, push_str, same_text};
use rand::distr::SampleString;
use std::collections::HashSet;
use vstd::prelude::*;

verus! {

/// Whether a character is an ASCII letter or digit (`A`-`Z`, `a`-`z`, `0`-`9`).
pub open spec fn is_alphanumeric_ascii(c: char) -> bool {
    ('0' <= c <= '9') || ('A' <= c <= 'Z') || ('a' <= c <= 'z')
}

/// `len` characters drawn at random from the ASCII letters and digits, by
/// `rand::distr::Alphanumeric::sample_string` with the generator of
/// `rand::rng()`. Which characters come out is left open; `rand::rng()`
/// panics only when the operating system's random source cannot be opened,
/// which no argument decides.
#[verifier::external_body]
fn random_alphanumeric(len: usize) -> (r: String)
    ensures
        r@.len() == len,
        forall|i: int| 0 <= i < r@.len() ==> is_alphanumeric_ascii(#[trigger] r@[i]),
{
    rand::distr::Alphanumeric.sample_string(&mut rand::rng(), len)
}

/// The identity of one run of a task: the runner's identity, a dash and a suffix.
pub open spec fn spec_run_id(id: u64, suffix: Seq<char>) -> Seq<char> {
    decimal(id as nat) + "-"@ + suffix
}

/// The identity of one run of the runner with identity `id`.
pub fn make_run_id(id: u64, suffix: &str) -> (r: String)
    ensures
        r@ == spec_run_id(id, suffix@),
{
    let mut r = String::new();
    push_decimal(&mut r, id);
    push_str(&mut r, "-");
    push_str(&mut r, suffix);
    r
}

/// Who hears task events: everyone (`run_id` absent) or one run only.
#[derive(Debug)]
pub struct ListenerEntry {
    pub run_id: Option<String>,
    pub callback: u64,
}

/// The plain content of a listener.
pub open spec fn listener_view(l: ListenerEntry) -> (Option<Seq<char>>, u64) {
    (
        match l.run_id {
            Some(s) => Some(s@),
            None => None,
        },
        l.callback,
    )
}

/// The views of a list of listeners.
pub open spec fn listener_views(ls: Seq<ListenerEntry>) -> Seq<(Option<Seq<char>>, u64)> {
    ls.map_values(|l: ListenerEntry| listener_view(l))
}

/// Whether a listener hears events of run `run_id`.
pub open spec fn hears(l: (Option<Seq<char>>, u64), run_id: Seq<char>) -> bool {
    match l.0 {
        None => true,
        Some(r) => r == run_id,
    }
}

/// The callbacks of the listeners that hear events of run `run_id`, in order.
pub open spec fn routed(ls: Seq<(Option<Seq<char>>, u64)>, run_id: Seq<char>) -> Seq<u64>
    decreases ls.len(),
{
    if ls.len() == 0 {
        Seq::empty()
    } else {
        routed(ls.drop_last(), run_id) + if hears(ls.last(), run_id) {
            seq![ls.last().1]
        } else {
            Seq::empty()
        }
    }
}

/// The listeners that remain after an event of run `run_id`: when the run
/// ended, its own listeners go; everyone else stays.
pub open spec fn kept(ls: Seq<(Option<Seq<char>>, u64)>, run_id: Seq<char>, ended: bool) -> Seq<
    (Option<Seq<char>>, u64),
>
    decreases ls.len(),
{
    if ls.len() == 0 {
        Seq::empty()
    } else {
        kept(ls.drop_last(), run_id, ended) + if ended && ls.last().0 == Some(run_id) {
            Seq::empty()
        } else {
            seq![ls.last()]
        }
    }
}

/// A runner is already queued or running.
#[derive(Debug)]
pub struct TaskAlreadyQueued {
    pub id: u64,
}

/// What the queue has to do with a task it accepted.
#[derive(Debug)]
pub struct TaskPlan {
    /// The runner's identity.
    pub id: u64,
    /// The identity of this run.
    pub run_id: String,
    /// Whether the elevated helper must be started first.
    pub ensure_elevated: bool,
}

/// The task queue's bookkeeping.
pub struct TaskBook {
    active_tasks: HashSet<u64>,
    listeners: Vec<ListenerEntry>,
}

/// The plain content of the bookkeeping: the identities of the active
/// runners and the listeners in the order they were added.
pub struct TaskBookView {
    pub active: Set<u64>,
    pub listeners: Seq<(Option<Seq<char>>, u64)>,
}

impl View for TaskBook {
    type V = TaskBookView;

    closed spec fn view(&self) -> TaskBookView {
        TaskBookView { active: self.active_tasks@, listeners: listener_views(self.listeners@) }
    }
}

impl TaskBook {
    /// No task and no listener.
    pub fn new() -> (r: Self)
        ensures
            r@.active == Set::<u64>::empty(),
            r@.listeners == Seq::<(Option<Seq<char>>, u64)>::empty(),
    {
        let r = TaskBook { active_tasks: HashSet::new(), listeners: Vec::new() };
        assert(listener_views(r.listeners@) =~= Seq::<(Option<Seq<char>>, u64)>::empty());
        r
    }

    /// Whether some task is queued or running.
    pub fn is_running(&self) -> (r: bool)
        ensures
            r == !self@.active.is_empty(),
    {
        !self.active_tasks.is_empty()
    }

    /// Adds a listener for the events of one run, or of all runs.
    pub fn listen(&mut self, run_id: Option<String>, callback: u64)
        ensures
            final(self)@.active == old(self)@.active,
            final(self)@.listeners == old(self)@.listeners.push(
                (
                    match run_id {
                        Some(s) => Some(s@),
                        None => None,
                    },
                    callback,
                ),
            ),
    {
        let entry = ListenerEntry { run_id, callback };
        self.listeners.push(entry);
        assert(listener_views(self.listeners@) =~= listener_views(old(self).listeners@).push(
            listener_view(entry),
        ));
    }

    /// Accepts a run of `runner` with a fresh run identity and a listener for
    /// it, unless the runner is already queued or running (see
    /// `add_with_suffix`; the suffix is eight random letters and digits).
    pub fn add(&mut self, runner: &ActionRunner, callback: u64) -> (r: Result<
        TaskPlan,
        TaskAlreadyQueued,
    >)
        ensures
            old(self)@.active.contains(runner_id(runner@)) ==> (r matches Err(e) && e.id
                == runner_id(runner@) && final(self)@ == old(self)@),
            !old(self)@.active.contains(runner_id(runner@)) ==> (r matches Ok(plan) && plan.id
                == runner_id(runner@) && (exists|suffix: Seq<char>|
                suffix.len() == 8 && (forall|i: int| 0 <= i < 8 ==> is_alphanumeric_ascii(#[trigger] suffix[i]))
                && plan.run_id@ == spec_run_id(plan.id, suffix))
                && plan.ensure_elevated == runner@.elevate && final(self)@.active == old(
                self,
            )@.active.insert(plan.id) && final(self)@.listeners == old(self)@.listeners.push(
                (Some(plan.run_id@), callback),
            )),
    {
        let suffix = random_alphanumeric(8);
        let r = self.add_with_suffix(runner, suffix.as_str(), callback);
        proof {
            if r is Ok {
                assert(suffix@.len() == 8);
                assert(forall|i: int| 0 <= i < 8 ==> is_alphanumeric_ascii(#[trigger] suffix@[i]));
            }
        }
        r
    }

    /// Accepts a run of `runner` with run identity `<id>-<suffix>` and a
    /// listener for it, unless the runner is already queued or running.
    pub fn add_with_suffix(&mut self, runner: &ActionRunner, suffix: &str, callback: u64) -> (r: Result<
        TaskPlan,
        TaskAlreadyQueued,
    >)
        ensures
            old(self)@.active.contains(runner_id(runner@)) ==> (r matches Err(e) && e.id
                == runner_id(runner@) && final(self)@ == old(self)@),
            !old(self)@.active.contains(runner_id(runner@)) ==> (r matches Ok(plan) && plan.id
                == runner_id(runner@) && plan.run_id@ == spec_run_id(plan.id, suffix@)
                && plan.ensure_elevated == runner@.elevate && final(self)@.active == old(
                self,
            )@.active.insert(plan.id) && final(self)@.listeners == old(self)@.listeners.push(
                (Some(plan.run_id@), callback),
            )),
    {
        broadcast use vstd::std_specs::hash::group_hash_axioms;

        let id = runner.get_id();
        if !self.active_tasks.insert(id) {
            assert(self.active_tasks@ =~= old(self).active_tasks@);
            assert(self@ == old(self)@);
            return Err(TaskAlreadyQueued { id });
        }
        let run_id = make_run_id(id, suffix);
        let listener_run_id = make_run_id(id, suffix);
        self.listen(Some(listener_run_id), callback);
        Ok(TaskPlan { id, run_id, ensure_elevated: runner.needs_elevation() })
    }

    /// Forgets a task that could not be queued after all.
    pub fn abandon(&mut self, id: u64)
        ensures
            final(self)@.active == old(self)@.active.remove(id),
            final(self)@.listeners == old(self)@.listeners,
    {
        broadcast use vstd::std_specs::hash::group_hash_axioms;

        self.active_tasks.remove(&id);
    }

    /// Delivers an event of run `run_id` of the runner with identity `id`:
    /// returns the callbacks to call, in order; when the run `ended`
    /// (finished or failed), the runner stops being active and the run's
    /// own listeners are dropped.
    pub fn dispatch(&mut self, id: u64, run_id: &str, ended: bool) -> (r: Vec<u64>)
        ensures
            r@ == routed(old(self)@.listeners, run_id@),
            final(self)@.listeners == kept(old(self)@.listeners, run_id@, ended),
            final(self)@.active == if ended {
                old(self)@.active.remove(id)
            } else {
                old(self)@.active
            },
    {
        broadcast use vstd::std_specs::hash::group_hash_axioms;

        let ghost ls = listener_views(self.listeners@);
        let mut callbacks: Vec<u64> = Vec::new();
        let mut remaining: Vec<ListenerEntry> = Vec::new();
        let n = self.listeners.len();
        let mut i: usize = 0;
        while i < n
            invariant
                n == ls.len(),
                ls == listener_views(self.listeners@),
                i <= n,
                callbacks@ == routed(ls.take(i as int), run_id@),
                listener_views(remaining@) == kept(ls.take(i as int), run_id@, ended),
            decreases n - i,
        {
            let entry = &self.listeners[i];
            proof {
                assert(ls.take(i + 1).drop_last() =~= ls.take(i as int));
                assert(ls.take(i + 1).last() == listener_view(*entry));
            }
            let matches = match &entry.run_id {
                None => true,
                Some(r) => same_text(r.as_str(), run_id),
            };
            if matches {
                callbacks.push(entry.callback);
            }
            let own = match &entry.run_id {
                None => false,
                Some(r) => same_text(r.as_str(), run_id),
            };
            let ghost before = remaining@;
            if !(ended && own) {
                let copy = ListenerEntry {
                    run_id: match &entry.run_id {
                        None => None,
                        Some(r) => Some(r.clone()),
                    },
                    callback: entry.callback,
                };
                remaining.push(copy);
                assert(listener_view(copy) == listener_view(*entry));
                assert(listener_views(remaining@) =~= listener_views(before).push(
                    ls.take(i + 1).last(),
                ));
            }
            assert(callbacks@ =~= routed(ls.take(i + 1), run_id@));
            assert(listener_views(remaining@) =~= kept(ls.take(i + 1), run_id@, ended));
            i = i + 1;
        }
        assert(ls.take(n as int) =~= ls);
        self.listeners = remaining;
        if ended {
            self.active_tasks.remove(&id);
        }
        callbacks
    }
}

/// The number of tasks waiting in the queue as a task event reports it:
/// the count when it fits in 32 bits, zero otherwise.
pub fn tasks_in_queue(len: usize) -> (r: u32)
    ensures
        r == if len <= u32::MAX {
            len as u32
        } else {
            0
        },
{
    if len <= u32::MAX as usize {
        len as u32
    } else {
        0
    }
}

} // verus!
