//! Properties that hold across the library's operations.
use crate::action::ActionView;
use crate::action_runner::{queue_needs_elevation, runner_id, undo_view};
use crate::systemd::IsEnabledOutput;
use crate::rpm_ostree::RpmOstreeActionView;
use crate::systemd::SystemdAction;
use crate::user_group::UserGroupAction;
use crate::action_runner::RunnerView;
use crate::run_machine::{
    accepts, announce, close, complete, finished_correctly, initial_state, run_invariant, run_step,
    ActionResultView, RunEventView, RunPhase, RunStateView, RunStepView,
};
use crate::task_book::{kept, routed};
use crate::task_queue::{queue_order, TaskQueueView};
use crate::elevated::{
    answers, held_after, spec_after_plan, spec_on_helper_command, spec_plan_starts,
    HelperAction, HelperCommandKind,
};
use crate::action_state::ActionState;
use crate::rpm_ostree::{kargs_in_place, opt_views, RpmCommands, RpmStatus};
use crate::systemd::{StatusStep, MAX_ALIAS_DEPTH};
use crate::text::{contains_sub, is_ws, lemma_words_nonempty, split_fields, trim, words};
use crate::user_group::spec_membership;
use vstd::prelude::*;

verus! {

/// Undoing a systemd action twice gives the action back.
pub proof fn lemma_systemd_undo_involutive(a: SystemdAction)
    ensures
        a.spec_undo().spec_undo() == a,
        a.spec_undo().spec_needs_elevation() == a.spec_needs_elevation(),
        a.spec_undo().spec_fail_allowed() == a.spec_fail_allowed(),
        a.spec_undo().spec_unit() == a.spec_unit(),
{
}

/// Undoing an rpm-ostree action twice gives the action back.
pub proof fn lemma_rpm_ostree_undo_involutive(a: RpmOstreeActionView)
    ensures
        a.undo().undo() == a,
        a.undo().needs_elevation() == a.needs_elevation(),
        a.undo().fail_allowed() == a.fail_allowed(),
{
}

/// Undoing a group removal twice gives the removal back; undoing an
/// addition twice gives the addition back except that it no longer creates
/// a missing group.
pub proof fn lemma_user_group_double_undo(a: UserGroupAction)
    ensures
        a.spec_undo().spec_undo() == (match a {
            UserGroupAction::Add { group, fail_allowed, .. } => UserGroupAction::Add {
                group,
                create_if_missing: Some(false),
                fail_allowed,
            },
            UserGroupAction::Remove { .. } => a,
        }),
        a.spec_undo().spec_group() == a.spec_group(),
        a.spec_undo().spec_fail_allowed() == a.spec_fail_allowed(),
{
}

/// Undoing an action twice gives the action back, and undoing keeps whether
/// it may fail.
pub proof fn lemma_action_undo_involutive(a: ActionView)
    ensures
        a.undo().undo() == a,
        a.undo().fail_allowed() == a.fail_allowed(),
{
}

/// Undoing an action never changes whether it needs root.
pub proof fn lemma_action_undo_keeps_elevation(a: ActionView)
    ensures
        a.undo().needs_elevation() == a.needs_elevation(),
{
}

/// Undoing every action of a queue never changes whether the queue needs root.
pub proof fn lemma_undo_keeps_elevation(q: Seq<ActionView>)
    ensures
        queue_needs_elevation(q.map_values(|a: ActionView| a.undo())) == queue_needs_elevation(q),
{
    let u = q.map_values(|a: ActionView| a.undo());
    if queue_needs_elevation(q) {
        let i = choose|i: int| 0 <= i < q.len() && #[trigger] q[i].needs_elevation();
        lemma_action_undo_keeps_elevation(q[i]);
        assert(u[i].needs_elevation());
    }
    if queue_needs_elevation(u) {
        let i = choose|i: int| 0 <= i < u.len() && #[trigger] u[i].needs_elevation();
        lemma_action_undo_keeps_elevation(q[i]);
        assert(q[i].needs_elevation());
    }
}

/// Undoing a runner twice keeps its name, actions and flags; in particular
/// undoing an undo runner twice gives a runner with the same identity.
pub proof fn lemma_runner_undo_twice(v: RunnerView)
    ensures
        undo_view(undo_view(v)).name == v.name,
        undo_view(undo_view(v)).queue == v.queue,
        undo_view(undo_view(v)).elevate == v.elevate,
        undo_view(undo_view(v)).user_context == v.user_context,
        v.is_undo ==> runner_id(undo_view(undo_view(v))) == runner_id(v),
{
    let q2 = undo_view(undo_view(v)).queue;
    assert forall|i: int| 0 <= i < v.queue.len() implies #[trigger] q2[i] == v.queue[i] by {
        lemma_action_undo_involutive(v.queue[i]);
    }
    assert(q2 =~= v.queue);
    if v.is_undo {
        assert(undo_view(undo_view(v)) == v);
    }
}

/// Reading back the word `systemctl is-enabled` prints for a state gives
/// that state, also through `IsEnabledOutput::from_str`, which ignores
/// surrounding whitespace.
pub proof fn lemma_is_enabled_round_trip(o: IsEnabledOutput)
    ensures
        IsEnabledOutput::spec_from_word(o.spec_name()) == Some(o),
        crate::text::trim(o.spec_name()) == o.spec_name(),
{
    reveal_strlit("enabled");
    reveal_strlit("enabled-runtime");
    reveal_strlit("disabled");
    reveal_strlit("not-found");
    reveal_strlit("masked");
    reveal_strlit("masked-runtime");
    reveal_strlit("static");
    reveal_strlit("indirect");
    reveal_strlit("alias");
    reveal_strlit("linked");
    reveal_strlit("linked-runtime");
    reveal_strlit("generated");
    reveal_strlit("transient");
    reveal_strlit("bad");
    assert("enabled"@.len() == 7 && "enabled"@[0] == 'e');
    assert("enabled-runtime"@.len() == 15 && "enabled-runtime"@[0] == 'e');
    assert("disabled"@.len() == 8 && "disabled"@[0] == 'd');
    assert("not-found"@.len() == 9 && "not-found"@[0] == 'n');
    assert("masked"@.len() == 6 && "masked"@[0] == 'm');
    assert("masked-runtime"@.len() == 14 && "masked-runtime"@[0] == 'm');
    assert("static"@.len() == 6 && "static"@[0] == 's');
    assert("indirect"@.len() == 8 && "indirect"@[0] == 'i');
    assert("alias"@.len() == 5 && "alias"@[0] == 'a');
    assert("linked"@.len() == 6 && "linked"@[0] == 'l');
    assert("linked-runtime"@.len() == 14 && "linked-runtime"@[0] == 'l');
    assert("generated"@.len() == 9 && "generated"@[0] == 'g');
    assert("transient"@.len() == 9 && "transient"@[0] == 't');
    assert("bad"@.len() == 3 && "bad"@[0] == 'b');
    assert("enabled"@[6] == 'd');
    assert("enabled-runtime"@[14] == 'e');
    assert("disabled"@[7] == 'd');
    assert("not-found"@[8] == 'd');
    assert("masked"@[5] == 'd');
    assert("masked-runtime"@[13] == 'e');
    assert("static"@[5] == 'c');
    assert("indirect"@[7] == 't');
    assert("alias"@[4] == 's');
    assert("linked"@[5] == 'd');
    assert("linked-runtime"@[13] == 'e');
    assert("generated"@[8] == 'd');
    assert("transient"@[8] == 't');
    assert("bad"@[2] == 'd');
    let n = o.spec_name();
    assert(!crate::text::is_ws(n[0]) && !crate::text::is_ws(n[n.len() - 1]));
}

/// Following aliases ends: past the depth limit an alias is never followed
/// again, and each followed alias goes one level deeper.
pub proof fn lemma_alias_resolution_ends(o: IsEnabledOutput, a: SystemdAction, depth: Option<u32>)
    ensures
        o.spec_to_action_state(a, depth) matches crate::systemd::StatusStep::ResolveAlias {
            depth: next,
        } ==> o == IsEnabledOutput::Alias && next == (match depth {
            Some(d) => d,
            None => 0,
        }) + 1 && next <= crate::systemd::MAX_ALIAS_DEPTH + 1,
        (match depth {
            Some(d) => d > crate::systemd::MAX_ALIAS_DEPTH,
            None => false,
        }) ==> o.spec_to_action_state(a, depth).spec_action_state() is Some,
{
}

/// Once a run has ended, none of its own listeners is left: they hear its
/// end and are dropped; every other listener is kept, in order.
pub proof fn lemma_ended_run_listeners_dropped(ls: Seq<(Option<Seq<char>>, u64)>, run_id: Seq<char>)
    ensures
        forall|i: int|
            0 <= i < kept(ls, run_id, true).len() ==> (#[trigger] kept(ls, run_id, true)[i]).0
                != Some(run_id),
        kept(ls, run_id, false) == ls,
    decreases ls.len(),
{
    if ls.len() > 0 {
        lemma_ended_run_listeners_dropped(ls.drop_last(), run_id);
        let k0 = kept(ls.drop_last(), run_id, true);
        let k = kept(ls, run_id, true);
        assert forall|i: int| 0 <= i < k.len() implies (#[trigger] k[i]).0 != Some(run_id) by {
            if i < k0.len() {
                assert(k[i] == k0[i]);
            }
        }
        assert(ls.drop_last().push(ls.last()) =~= ls);
    }
}

/// A listener for one run hears every event of that run.
pub proof fn lemma_own_listener_hears(
    ls: Seq<(Option<Seq<char>>, u64)>,
    run_id: Seq<char>,
    i: int,
)
    requires
        0 <= i < ls.len(),
        ls[i].0 == Some(run_id) || ls[i].0 is None,
    ensures
        routed(ls, run_id).contains(ls[i].1),
    decreases ls.len(),
{
    if i == ls.len() - 1 {
        let r = routed(ls, run_id);
        assert(r[r.len() - 1] == ls[i].1);
    } else {
        lemma_own_listener_hears(ls.drop_last(), run_id, i);
        let r0 = routed(ls.drop_last(), run_id);
        let j = choose|j: int| 0 <= j < r0.len() && r0[j] == ls[i].1;
        assert(routed(ls, run_id)[j] == r0[j]);
    }
}

/// A runner that was not active becomes active when its task is added and
/// stops being active when that task ends, so it can be queued again.
pub proof fn lemma_add_then_end_restores(active: Set<u64>, id: u64)
    requires
        !active.contains(id),
    ensures
        active.insert(id).contains(id),
        active.insert(id).remove(id) == active,
{
    assert(active.insert(id).remove(id) =~= active);
}

/// A run starts in a state that satisfies the run invariant.
pub proof fn lemma_run_starts_well(r: RunnerView)
    ensures
        run_invariant(r, initial_state()),
{
}

proof fn lemma_announce_keeps(r: RunnerView, s: RunStateView, i: int)
    requires
        0 <= i < r.queue.len(),
        0 <= s.next <= r.queue.len(),
        s.results.len() == i,
        forall|k: int| 0 <= k < s.results.len() ==> (#[trigger] s.results[k]).action == r.queue[k],
        forall|k: int|
            0 <= k < s.results.len() ==> (#[trigger] s.results[k]).success
                || s.results[k].action.fail_allowed(),
    ensures
        run_invariant(r, announce(r, s, i).0),
{
}

proof fn lemma_complete_keeps(r: RunnerView, s: RunStateView, success: bool)
    requires
        run_invariant(r, s),
        s.phase == RunPhase::Main || s.phase == RunPhase::AwaitRecovery || s.phase
            == RunPhase::Retry,
    ensures
        run_invariant(r, complete(r, s, success).0),
{
    let a = r.queue[s.next];
    let result = ActionResultView {
        action: a,
        success,
        stdout: crate::text::trim(s.stdout),
        stderr: crate::text::trim(s.stderr),
    };
    let s2 = RunStateView { results: s.results.push(result), next: s.next + 1, ..s };
    assert forall|k: int| 0 <= k < s2.results.len() implies (#[trigger] s2.results[k]).action
        == r.queue[k] by {
        if k < s.results.len() {
            assert(s2.results[k] == s.results[k]);
        }
    }
    if (!a.fail_allowed() && !success) || s.next + 1 >= r.queue.len() {
        assert forall|k: int| 0 <= k < s2.results.len() - 1 implies (#[trigger] s2.results[k]).success
            || s2.results[k].action.fail_allowed() by {
            assert(s2.results[k] == s.results[k]);
        }
        assert(finished_correctly(r, s2.results));
    } else {
        assert forall|k: int| 0 <= k < s2.results.len() implies (#[trigger] s2.results[k]).success
            || s2.results[k].action.fail_allowed() by {
            if k < s.results.len() {
                assert(s2.results[k] == s.results[k]);
            }
        }
        lemma_announce_keeps(r, s2, s.next + 1);
    }
}

/// Every step of a run keeps the run invariant; and when a run hands out its
/// results, they are the results of the first actions of the queue in order,
/// it went on past a failure only where the action was allowed to fail, and
/// it stopped early only after a failure that was not allowed.
pub proof fn lemma_run_step_keeps_invariant(r: RunnerView, s: RunStateView, e: RunEventView)
    requires
        run_invariant(r, s),
        accepts(s.phase, e),
    ensures
        run_invariant(r, run_step(r, s, e).0),
        run_step(r, s, e).1 matches RunStepView::Finished(results) ==> finished_correctly(
            r,
            results,
        ),
{
    match s.phase {
        RunPhase::Ready => {
            if s.next < r.queue.len() {
                lemma_announce_keeps(r, s, s.next);
            } else {
                assert(s.results.len() == r.queue.len());
            }
        },
        RunPhase::Main => match e {
            RunEventView::Exited { success, stdout, stderr } => {
                let s2 = RunStateView {
                    stdout: s.stdout + stdout,
                    stderr: s.stderr + stderr,
                    ..s
                };
                if success {
                    lemma_complete_keeps(r, s2, true);
                }
            },
            _ => {},
        },
        RunPhase::AwaitRecovery => match e {
            RunEventView::Recovery(None) => lemma_complete_keeps(r, s, false),
            _ => {},
        },
        RunPhase::Retry => match e {
            RunEventView::Exited { success, stdout, stderr } => {
                let s2 = RunStateView {
                    stdout: s.stdout + stdout,
                    stderr: s.stderr + stderr,
                    ..s
                };
                lemma_complete_keeps(r, s2, success);
            },
            _ => {},
        },
        _ => {},
    }
}


/// How far along its current action a run is in each phase: later phases
/// rank lower, and the end ranks lowest.
pub open spec fn phase_rank(p: RunPhase) -> int {
    match p {
        RunPhase::Ready => 7,
        RunPhase::Announced => 6,
        RunPhase::Main => 5,
        RunPhase::AwaitRecovery => 4,
        RunPhase::Recovery => 3,
        RunPhase::Retry => 2,
        RunPhase::Closing => 1,
        RunPhase::Done => 0,
    }
}

/// What is left of a run: eight units per action still to start or
/// finish, plus the rank of the current phase.
pub open spec fn run_measure(r: RunnerView, s: RunStateView) -> int {
    (r.queue.len() - s.next) * 8 + phase_rank(s.phase)
}

/// A run always ends: every step that the run accepts, from a state that
/// satisfies the run invariant, lowers the measure of what is left, which
/// is never negative; and a run that is done accepts no event at all.
pub proof fn lemma_run_step_decreases(r: RunnerView, s: RunStateView, e: RunEventView)
    requires
        run_invariant(r, s),
        accepts(s.phase, e),
    ensures
        0 <= run_measure(r, run_step(r, s, e).0) < run_measure(r, s),
        !accepts(RunPhase::Done, e),
{
}


/// The helper thread keeps at most one helper and answers every run request
/// exactly once: it starts a helper only when none is held; a run request
/// gets exactly one answer (its result, or the failure to start the
/// helper) and any other command none; and a task runs only in a held
/// helper.
pub proof fn lemma_helper_thread(held: bool, command: HelperCommandKind, started: bool)
    ensures
        spec_plan_starts(spec_on_helper_command(held, command)) ==> !held,
        answers(spec_after_plan(spec_on_helper_command(held, command), started)) == if command
            == HelperCommandKind::Run {
            1nat
        } else {
            0nat
        },
        spec_after_plan(spec_on_helper_command(held, command), started) == HelperAction::RunTask
            ==> held_after(held, spec_on_helper_command(held, command), started),
{
}


/// A worker's queue runs its tasks first in, first out, one at a time: the
/// tasks that ended are the first tasks added, in the order they were
/// added; the running task, if any, is the next one added; and every task
/// added either ended exactly once, runs, or waits.
pub proof fn lemma_queue_fifo<T>(v: TaskQueueView<T>)
    requires
        queue_order(v),
    ensures
        v.finished.len() <= v.added.len(),
        v.finished == v.added.take(v.finished.len() as int),
        v.running matches Some(t) ==> v.added[v.finished.len() as int] == t,
        v.waiting == v.added.skip(v.added.len() - v.waiting.len()),
{
    let r = crate::task_queue::running_seq(v.running);
    assert(v.added == v.finished + r + v.waiting);
    assert(v.added.take(v.finished.len() as int) =~= v.finished);
    assert(v.added.skip(v.added.len() - v.waiting.len()) =~= v.waiting);
    if v.running is Some {
        assert(v.added[v.finished.len() as int] == r[0]);
    }
}


/// A run runs each queued action's own command: every step keeps the run at
/// the same action or moves it to the next one; and every command it asks
/// to run, except a recovery command, is the command of the action it is
/// at, run as the user exactly when the runner is elevated and the action
/// itself needs no root (and never as the user on a retry).
pub proof fn lemma_run_runs_current_action(r: RunnerView, s: RunStateView, e: RunEventView)
    requires
        run_invariant(r, s),
        accepts(s.phase, e),
    ensures
        run_step(r, s, e).0.next == s.next || run_step(r, s, e).0.next == s.next + 1,
        s.phase == RunPhase::Announced ==> run_step(r, s, e).1 == (RunStepView::Run {
            command: r.queue[s.next].command(r.user_context.1),
            as_user: r.elevate && !r.queue[s.next].needs_elevation(),
        }) && run_step(r, s, e).0.next == s.next,
        s.phase == RunPhase::Recovery && e is Exited ==> run_step(r, s, e).1 == (RunStepView::Run {
            command: r.queue[s.next].command(r.user_context.1),
            as_user: false,
        }) && run_step(r, s, e).0.next == s.next,
        s.phase == RunPhase::Ready && s.next < r.queue.len() && r.queue.len() <= i32::MAX
            ==> (run_step(r, s, e).1 matches RunStepView::Progress { action, .. } && action == Some(
            r.queue[s.next].display(),
        )),
{
}

/// What `systemctl is-enabled` means for an action: enabling is done for an
/// enabled unit and available only for a disabled one; disabling the
/// reverse; an alias is followed one level deeper until the depth limit;
/// every other report leaves either action unavailable.
pub proof fn lemma_is_enabled_meaning(o: IsEnabledOutput, a: SystemdAction, d: Option<u32>)
    ensures
        o != IsEnabledOutput::Enabled && o != IsEnabledOutput::Disabled && o
            != IsEnabledOutput::Alias ==> o.spec_to_action_state(a, d) == StatusStep::Resolved(
            ActionState::UnAvailable,
        ),
        (o.spec_to_action_state(a, d) == StatusStep::Resolved(ActionState::Available)) <==> ((
        a is Enable && o == IsEnabledOutput::Disabled) || (a is Disable && o
            == IsEnabledOutput::Enabled)),
        (o.spec_to_action_state(a, d) == StatusStep::Resolved(ActionState::Done)) <==> ((a is Enable
            && o == IsEnabledOutput::Enabled) || (a is Disable && o == IsEnabledOutput::Disabled)),
        o == IsEnabledOutput::Alias ==> o.spec_to_action_state(a, d) == (if (match d {
            Some(x) => x,
            None => 0u32,
        }) > MAX_ALIAS_DEPTH {
            StatusStep::MaxDepthReached
        } else {
            StatusStep::ResolveAlias {
                depth: ((match d {
                    Some(x) => x,
                    None => 0u32,
                }) + 1) as u32,
            }
        }),
{
}

/// Group membership: a user is in a group that exists exactly when the
/// group's id (the third `:`-separated field of its `getent group` entry)
/// is one of the whitespace-separated ids that `id --groups` printed, at any
/// place; a group that does not exist has no members; an entry without a
/// third field gives no answer.
pub proof fn lemma_membership_meaning(id_output: Seq<char>, group_found: bool, getent_output: Seq<char>)
    ensures
        !group_found ==> spec_membership(id_output, group_found, getent_output) == Some(false),
        group_found && split_fields(trim(getent_output), ':').len() <= 2 ==> spec_membership(
            id_output,
            group_found,
            getent_output,
        ) is None,
        group_found && split_fields(trim(getent_output), ':').len() > 2 ==> spec_membership(
            id_output,
            group_found,
            getent_output,
        ) is Some,
        group_found && split_fields(trim(getent_output), ':').len() > 2 ==> (spec_membership(
            id_output,
            group_found,
            getent_output,
        ) == Some(true) <==> exists|k: int|
            0 <= k < words(trim(id_output)).len() && #[trigger] words(trim(id_output))[k]
                == split_fields(trim(getent_output), ':')[2]),
        group_found && split_fields(trim(getent_output), ':').len() > 2 ==> forall|k: int|
            0 <= k < words(trim(id_output)).len() && #[trigger] words(trim(id_output))[k]
                == split_fields(trim(getent_output), ':')[2] ==> spec_membership(
                id_output,
                group_found,
                getent_output,
            ) == Some(true),
{
}

/// Event delivery: an event of run `run_id` reaches, in order, every
/// listener for all runs and every listener for that run, and no other;
/// afterwards every listener is kept, in order, except the run's own
/// listeners when the run ended.
pub proof fn lemma_dispatch_meaning(ls: Seq<(Option<Seq<char>>, u64)>, run_id: Seq<char>, ended: bool)
    ensures
        kept(ls, run_id, ended) == ls.filter(
            |l: (Option<Seq<char>>, u64)| !(ended && l.0 == Some(run_id)),
        ),
        routed(ls, run_id) == ls.filter(
            |l: (Option<Seq<char>>, u64)| l.0 is None || l.0 == Some(run_id),
        ).map_values(|l: (Option<Seq<char>>, u64)| l.1),
    decreases ls.len(),
{
    reveal(Seq::filter);
    if ls.len() > 0 {
        lemma_dispatch_meaning(ls.drop_last(), run_id, ended);
        let pk = |l: (Option<Seq<char>>, u64)| !(ended && l.0 == Some(run_id));
        let pr = |l: (Option<Seq<char>>, u64)| l.0 is None || l.0 == Some(run_id);
        let f = |l: (Option<Seq<char>>, u64)| l.1;
        assert(kept(ls, run_id, ended) =~= ls.filter(pk)) by {
            if pk(ls.last()) {
                assert(ls.filter(pk) == ls.drop_last().filter(pk).push(ls.last()));
            } else {
                assert(ls.filter(pk) == ls.drop_last().filter(pk));
            }
        }
        let fr = ls.drop_last().filter(pr);
        if pr(ls.last()) {
            assert(ls.filter(pr) == fr.push(ls.last()));
            assert(fr.push(ls.last()).map_values(f) =~= fr.map_values(f).push(ls.last().1));
        } else {
            assert(ls.filter(pr) == fr);
        }
        assert(routed(ls, run_id) =~= ls.filter(pr).map_values(f));
    } else {
        assert(kept(ls, run_id, ended) =~= ls.filter(
            |l: (Option<Seq<char>>, u64)| !(ended && l.0 == Some(run_id)),
        ));
        assert(routed(ls, run_id) =~= ls.filter(
            |l: (Option<Seq<char>>, u64)| l.0 is None || l.0 == Some(run_id),
        ).map_values(|l: (Option<Seq<char>>, u64)| l.1));
    }
}

/// Kernel arguments are in place exactly when every argument to add occurs
/// in the current kernel command line and no argument to delete occurs in
/// it; for a kernel-argument check this decides the `kargs` part of the
/// status.
pub proof fn lemma_kargs_meaning(
    c: RpmCommands,
    install_succeeded: Option<bool>,
    remove_succeeded: Option<bool>,
    current: Seq<char>,
)
    requires
        c.kargs is Some,
    ensures
        c.spec_status(install_succeeded, remove_succeeded, Some(current)).2 <==> ((match opt_views(
            c.kargs->Some_0.add,
        ) {
            Some(a) => forall|i: int| 0 <= i < a.len() ==> contains_sub(current, #[trigger] a[i]),
            None => true,
        }) && (match opt_views(c.kargs->Some_0.remove) {
            Some(r) => forall|j: int| 0 <= j < r.len() ==> !contains_sub(current, #[trigger] r[j]),
            None => true,
        })),
        forall|add: Option<Seq<Seq<char>>>, remove: Option<Seq<Seq<char>>>|
            #[trigger] kargs_in_place(add, remove, current) <==> ((match add {
                Some(a) => forall|i: int| 0 <= i < a.len() ==> contains_sub(current, #[trigger] a[i]),
                None => true,
            }) && (match remove {
                Some(r) => forall|j: int| 0 <= j < r.len() ==> !contains_sub(current, #[trigger] r[j]),
                None => true,
            })),
{
}


/// A run records what actually happened: a result is recorded only when
/// the current action's command (or its retry) ran, or when a failed action
/// has no recovery, and it is the result of the current action with the
/// command's success (failure when there was no recovery); a successful
/// command's result keeps the output gathered for the action, trimmed; a
/// failed command is followed by the search for its recovery command,
/// which is then run as given, not as the user.
pub proof fn lemma_run_records_outcomes(r: RunnerView, s: RunStateView, e: RunEventView)
    requires
        run_invariant(r, s),
        accepts(s.phase, e),
    ensures
        run_step(r, s, e).0.results.len() == s.results.len() + 1 ==> {
            let res = run_step(r, s, e).0.results.last();
            &&& run_step(r, s, e).0.results.drop_last() == s.results
            &&& res.action == r.queue[s.next]
            &&& (e is Exited || e == RunEventView::Recovery(None))
            &&& res.success == (match e {
                RunEventView::Exited { success, .. } => success,
                _ => false,
            })
        },
        run_step(r, s, e).0.results.len() == s.results.len() || run_step(r, s, e).0.results.len()
            == s.results.len() + 1 || run_step(r, s, e).1 is Finished,
        s.phase == RunPhase::Main ==> (e matches RunEventView::Exited { success, stdout, stderr } ==> (
        if success {
            run_step(r, s, e).0.results.len() == s.results.len() + 1 && run_step(r, s, e).0.results.last().stdout
                == trim(s.stdout + stdout) && run_step(r, s, e).0.results.last().stderr == trim(
                s.stderr + stderr,
            )
        } else {
            run_step(r, s, e).1 == (RunStepView::FindRecovery { action_index: s.next })
                && run_step(r, s, e).0.results == s.results
        })),
        s.phase == RunPhase::AwaitRecovery ==> (e matches RunEventView::Recovery(Some(c)) ==> run_step(
            r,
            s,
            e,
        ).1 == (RunStepView::Run { command: c, as_user: false })),
{
    match s.phase {
        RunPhase::Main => match e {
            RunEventView::Exited { success, stdout, stderr } => {
                let s2 = RunStateView { stdout: s.stdout + stdout, stderr: s.stderr + stderr, ..s };
                if success {
                    assert(complete(r, s2, true).0.results.drop_last() =~= s.results);
                }
            },
            _ => {},
        },
        RunPhase::AwaitRecovery => match e {
            RunEventView::Recovery(None) => {
                assert(complete(r, s, false).0.results.drop_last() =~= s.results);
            },
            _ => {},
        },
        RunPhase::Retry => match e {
            RunEventView::Exited { success, stdout, stderr } => {
                let s2 = RunStateView { stdout: s.stdout + stdout, stderr: s.stderr + stderr, ..s };
                assert(complete(r, s2, success).0.results.drop_last() =~= s.results);
            },
            _ => {},
        },
        _ => {},
    }
}

/// The state of an rpm-ostree action from its checks: packages to layer
/// count as installed when their check succeeded or was not run; packages
/// to remove count as removed when their check failed or was not run;
/// kernel arguments count as in place when there was nothing to check; and
/// the action is done when all three hold, available when none does, and
/// unavailable otherwise.
pub proof fn lemma_rpm_status_meaning(
    c: RpmCommands,
    install_succeeded: Option<bool>,
    remove_succeeded: Option<bool>,
    kargs_output: Option<Seq<char>>,
    st: RpmStatus,
)
    ensures
        c.spec_status(install_succeeded, remove_succeeded, kargs_output).0 == (install_succeeded
            != Some(false)),
        c.spec_status(install_succeeded, remove_succeeded, kargs_output).1 == (remove_succeeded
            != Some(true)),
        (c.kargs is None || kargs_output is None) ==> c.spec_status(
            install_succeeded,
            remove_succeeded,
            kargs_output,
        ).2,
        (st.spec_action_state() == ActionState::Done) <==> (st.installed && st.removed && st.kargs),
        (st.spec_action_state() == ActionState::Available) <==> (!st.installed && !st.removed
            && !st.kargs),
{
}


/// A text without whitespace is one word (when it is not empty).
pub proof fn lemma_words_of_token(t: Seq<char>)
    requires
        t.len() > 0,
        forall|i: int| 0 <= i < t.len() ==> !is_ws(#[trigger] t[i]),
    ensures
        words(t) == seq![t],
    decreases t.len(),
{
    if t.len() > 1 {
        let d = t.drop_last();
        assert forall|i: int| 0 <= i < d.len() implies !is_ws(#[trigger] d[i]) by {
            assert(d[i] == t[i]);
        }
        lemma_words_of_token(d);
        assert(t[t.len() - 2] == d[d.len() - 1]);
        assert(words(t) =~= seq![d.push(t.last())]);
        assert(d.push(t.last()) =~= t);
    } else {
        assert(t.drop_last() =~= Seq::<char>::empty());
        assert(words(t.drop_last()) == Seq::<Seq<char>>::empty());
        assert(!is_ws(t[0]));
        assert(seq![t.last()] =~= t);
        assert(words(t) =~= seq![seq![t.last()]]);
    }
}

/// Whitespace separates words: the words of `a`, a whitespace character and
/// `b` are the words of `a` followed by the words of `b`.
pub proof fn lemma_words_split_at_whitespace(a: Seq<char>, c: char, b: Seq<char>)
    requires
        is_ws(c),
    ensures
        words(a + seq![c] + b) == words(a) + words(b),
    decreases b.len(),
{
    let s = a + seq![c] + b;
    if b.len() == 0 {
        assert(s.drop_last() =~= a);
        assert(words(b) =~= Seq::<Seq<char>>::empty());
        assert(words(a) + words(b) =~= words(a));
    } else {
        let bd = b.drop_last();
        assert(s.drop_last() =~= a + seq![c] + bd);
        lemma_words_split_at_whitespace(a, c, bd);
        let x = b.last();
        assert(s.last() == x);
        if is_ws(x) {
        } else if b.len() >= 2 && !is_ws(b[b.len() - 2]) {
            assert(s[s.len() - 2] == b[b.len() - 2]);
            assert(bd.last() == b[b.len() - 2]);
            lemma_words_nonempty(bd);
            let wa = words(a);
            let wb = words(bd);
            assert((wa + wb).update((wa + wb).len() - 1, (wa + wb).last().push(x)) =~= wa + wb.update(
                wb.len() - 1,
                wb.last().push(x),
            ));
        } else {
            if b.len() >= 2 {
                assert(s[s.len() - 2] == b[b.len() - 2]);
            } else {
                assert(s[s.len() - 2] == c);
            }
            assert((words(a) + words(bd)).push(seq![x]) =~= words(a) + words(bd).push(seq![x]));
        }
    }
}

/// A text without the separator is one field.
pub proof fn lemma_fields_of_token(t: Seq<char>, sep: char)
    requires
        forall|i: int| 0 <= i < t.len() ==> #[trigger] t[i] != sep,
    ensures
        split_fields(t, sep) == seq![t],
    decreases t.len(),
{
    if t.len() > 0 {
        let d = t.drop_last();
        assert forall|i: int| 0 <= i < d.len() implies #[trigger] d[i] != sep by {
            assert(d[i] == t[i]);
        }
        lemma_fields_of_token(d, sep);
        assert(d.push(t.last()) =~= t);
        assert(split_fields(t, sep) =~= seq![t]);
    } else {
        assert(t =~= Seq::<char>::empty());
    }
}

/// The separator splits fields: the fields of `a`, the separator and `b`
/// are the fields of `a` followed by the fields of `b`.
pub proof fn lemma_fields_split_at_separator(a: Seq<char>, sep: char, b: Seq<char>)
    ensures
        split_fields(a + seq![sep] + b, sep) == split_fields(a, sep) + split_fields(b, sep),
    decreases b.len(),
{
    let s = a + seq![sep] + b;
    if b.len() == 0 {
        assert(s.drop_last() =~= a);
        assert(split_fields(b, sep) =~= seq![Seq::<char>::empty()]);
        assert(split_fields(a, sep).push(Seq::<char>::empty()) =~= split_fields(a, sep) + seq![
            Seq::<char>::empty(),
        ]);
    } else {
        let bd = b.drop_last();
        assert(s.drop_last() =~= a + seq![sep] + bd);
        lemma_fields_split_at_separator(a, sep, bd);
        let x = b.last();
        let fa = split_fields(a, sep);
        let fb = split_fields(bd, sep);
        crate::text::lemma_split_fields_nonempty(bd, sep);
        if x == sep {
            assert((fa + fb).push(Seq::<char>::empty()) =~= fa + fb.push(Seq::<char>::empty()));
        } else {
            assert((fa + fb).update((fa + fb).len() - 1, (fa + fb).last().push(x)) =~= fa + fb.update(
                fb.len() - 1,
                fb.last().push(x),
            ));
        }
    }
}


/// A text contains every text that occurs in it at some place, and nothing
/// longer than itself.
pub proof fn lemma_substring_meaning(x: Seq<char>, n: Seq<char>, y: Seq<char>, h: Seq<char>)
    ensures
        contains_sub(x + n + y, n),
        contains_sub(h, n) ==> n.len() <= h.len(),
{
    let t = x + n + y;
    assert(t.subrange(x.len() as int, (x.len() + n.len()) as int) =~= n);
}

} // verus!
