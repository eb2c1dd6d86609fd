//! Pages of settings: text inputs and switches that run actions.
use crate::action::Action;
use crate::action_runner::{action_views, new_view, runner_id, undo_view, ActionRunner, RunnerView};
use crate::action_state::ActionState;
use crate::pages::YamlPage;
use crate::user_context::UserExecutionContext;
use std::collections::HashMap;
use std::sync::Arc;
use vstd::prelude::*;

verus! {

/// The kind of text an input takes.
#[derive(PartialEq, Eq, Structural, Clone, Copy, Debug)]
pub enum InputType {
    FreeForm,
    Digits,
    Number,
    Phone,
    Url,
    Email,
    Name,
    Password,
    Pin,
}

/// A text input.
#[derive(Debug)]
pub struct Input {
    pub title: String,
    pub input_type: InputType,
}

/// A switch: turning it on runs its actions, turning it off runs their undo.
#[derive(Debug)]
pub struct Switch {
    pub title: String,
    pub subtitle: Option<String>,
    pub actions: Vec<Action>,
}

/// The combined state of a switch's actions: done when all are done,
/// available when all are unavailable, unavailable otherwise.
pub open spec fn combined_state(states: Seq<ActionState>) -> ActionState {
    if forall|i: int| 0 <= i < states.len() ==> #[trigger] states[i] == ActionState::Done {
        ActionState::Done
    } else if forall|i: int| 0 <= i < states.len() ==> #[trigger] states[i]
        == ActionState::UnAvailable {
        ActionState::Available
    } else {
        ActionState::UnAvailable
    }
}

impl Switch {
    /// The switch's state, given the state of each of its actions in order
    /// (an action whose state could not be found counts as unavailable).
    pub fn get_status(&self, action_states: &Vec<ActionState>) -> (r: ActionState)
        requires
            action_states@.len() == self.actions@.len(),
        ensures
            r == combined_state(action_states@),
    {
        let mut done = true;
        let mut all_unavailable = true;
        let mut i: usize = 0;
        while i < action_states.len()
            invariant
                i <= action_states@.len(),
                done == forall|j: int| 0 <= j < i ==> #[trigger] action_states@[j] == ActionState::Done,
                all_unavailable == forall|j: int|
                    0 <= j < i ==> #[trigger] action_states@[j] == ActionState::UnAvailable,
            decreases action_states@.len() - i,
        {
            let s = action_states[i];
            if s != ActionState::Done {
                done = false;
            }
            if s != ActionState::UnAvailable {
                all_unavailable = false;
            }
            i = i + 1;
        }
        if done {
            return ActionState::Done;
        }
        if all_unavailable {
            return ActionState::Available;
        }
        ActionState::UnAvailable
    }
}

/// One row of a settings group.
#[derive(Debug)]
pub enum Setting {
    Input(Input),
    Switch(Switch),
}

/// A titled group of settings.
#[derive(Debug)]
pub struct Group {
    pub title: Option<String>,
    pub settings: Vec<Setting>,
}

/// A page of settings.
#[derive(Debug)]
pub struct SettingsPageYaml {
    pub title: String,
    pub section: Option<String>,
    pub icon: String,
    pub groups: Vec<Group>,
}

/// The switches among `settings`, in order.
pub open spec fn setting_switches(settings: Seq<Setting>) -> Seq<Switch>
    decreases settings.len(),
{
    if settings.len() == 0 {
        Seq::empty()
    } else {
        setting_switches(settings.drop_last()) + match settings.last() {
            Setting::Switch(s) => seq![s],
            Setting::Input(_) => Seq::empty(),
        }
    }
}

/// The switches of all groups, group after group.
pub open spec fn group_switches(groups: Seq<Group>) -> Seq<Switch>
    decreases groups.len(),
{
    if groups.len() == 0 {
        Seq::empty()
    } else {
        group_switches(groups.drop_last()) + setting_switches(groups.last().settings@)
    }
}

/// `m` extended by the runners that `switches` declare, for the given user:
/// for each switch in order, its runner (named by its title, running its
/// actions) and that runner's undo, each under its identity; a later entry
/// replaces an earlier one with the same identity.
pub open spec fn extend_runners(
    m: Map<u64, RunnerView>,
    switches: Seq<Switch>,
    user_context: <UserExecutionContext as View>::V,
) -> Map<u64, RunnerView>
    decreases switches.len(),
{
    if switches.len() == 0 {
        m
    } else {
        let s = switches.last();
        let r = new_view(s.title@, action_views(s.actions@), user_context);
        let u = undo_view(r);
        extend_runners(m, switches.drop_last(), user_context).insert(runner_id(r), r).insert(
            runner_id(u),
            u,
        )
    }
}

/// The runners that `switches` declare (see `extend_runners`).
pub open spec fn switch_runners(
    switches: Seq<Switch>,
    user_context: <UserExecutionContext as View>::V,
) -> Map<u64, RunnerView> {
    extend_runners(Map::empty(), switches, user_context)
}

proof fn lemma_extend_concat(
    m: Map<u64, RunnerView>,
    a: Seq<Switch>,
    b: Seq<Switch>,
    user_context: <UserExecutionContext as View>::V,
)
    ensures
        extend_runners(m, a + b, user_context) == extend_runners(
            extend_runners(m, a, user_context),
            b,
            user_context,
        ),
    decreases b.len(),
{
    if b.len() == 0 {
        assert(a + b =~= a);
    } else {
        lemma_extend_concat(m, a, b.drop_last(), user_context);
        assert((a + b).drop_last() =~= a + b.drop_last());
        assert((a + b).last() == b.last());
    }
}

/// The views of a map of shared runners.
pub open spec fn runner_map_view(m: Map<u64, Arc<ActionRunner>>) -> Map<u64, RunnerView> {
    m.map_values(|a: Arc<ActionRunner>| a@)
}

/// Adds a switch's runner and its undo to `map`.
fn add_switch(
    map: &mut HashMap<u64, Arc<ActionRunner>>,
    switch: &Switch,
    user_context: &UserExecutionContext,
)
    ensures
        runner_map_view(final(map)@) == ({
            let r = new_view(switch.title@, action_views(switch.actions@), user_context@);
            let u = undo_view(r);
            runner_map_view(old(map)@).insert(runner_id(r), r).insert(runner_id(u), u)
        }),
{
    broadcast use vstd::std_specs::hash::group_hash_axioms;

    let runner = ActionRunner::new(switch.title.as_str(), switch.actions.as_slice(), user_context);
    let undo = runner.to_undo();
    let id = runner.get_id();
    let undo_id = undo.get_id();
    map.insert(id, runner);
    map.insert(undo_id, undo);
    proof {
        let r = new_view(switch.title@, action_views(switch.actions@), user_context@);
        let u = undo_view(r);
        assert(runner_map_view(map@) =~= runner_map_view(old(map)@).insert(runner_id(r), r).insert(
            runner_id(u),
            u,
        ));
    }
}

/// Adds the runners of a group's switches to `map`.
fn add_group(
    map: &mut HashMap<u64, Arc<ActionRunner>>,
    group: &Group,
    user_context: &UserExecutionContext,
)
    ensures
        runner_map_view(final(map)@) == extend_runners(
            runner_map_view(old(map)@),
            setting_switches(group.settings@),
            user_context@,
        ),
{
    let ghost start = runner_map_view(map@);
    let mut k: usize = 0;
    assert(setting_switches(group.settings@.take(0)) =~= Seq::<Switch>::empty());
    while k < group.settings.len()
        invariant
            k <= group.settings@.len(),
            runner_map_view(map@) == extend_runners(
                start,
                setting_switches(group.settings@.take(k as int)),
                user_context@,
            ),
        decreases group.settings@.len() - k,
    {
        let ghost done = setting_switches(group.settings@.take(k as int));
        assert(group.settings@.take(k + 1).drop_last() =~= group.settings@.take(k as int));
        match &group.settings[k] {
            Setting::Input(_) => {
                assert(setting_switches(group.settings@.take(k + 1)) =~= done);
            },
            Setting::Switch(switch) => {
                add_switch(map, switch, user_context);
                let ghost next = done.push(*switch);
                assert(setting_switches(group.settings@.take(k + 1)) =~= next);
                assert(next.drop_last() =~= done);
            },
        }
        k = k + 1;
    }
    assert(group.settings@.take(group.settings@.len() as int) =~= group.settings@);
}

impl YamlPage for SettingsPageYaml {
    /// The runners of every switch of the page (see `switch_runners`).
    #[verifier::spinoff_prover]
    #[verifier::rlimit(40)]
    fn get_action_runners(&self, user_context: &UserExecutionContext) -> (r: HashMap<
        u64,
        Arc<ActionRunner>,
    >)
        ensures
            runner_map_view(r@) == switch_runners(group_switches(self.groups@), user_context@),
    {
        let mut map: HashMap<u64, Arc<ActionRunner>> = HashMap::new();
        assert(runner_map_view(map@) =~= switch_runners(
            group_switches(self.groups@.take(0)),
            user_context@,
        ));
        let mut g: usize = 0;
        while g < self.groups.len()
            invariant
                g <= self.groups@.len(),
                runner_map_view(map@) == switch_runners(
                    group_switches(self.groups@.take(g as int)),
                    user_context@,
                ),
            decreases self.groups@.len() - g,
        {
            let ghost before = group_switches(self.groups@.take(g as int));
            add_group(&mut map, &self.groups[g], user_context);
            proof {
                lemma_extend_concat(
                    Map::empty(),
                    before,
                    setting_switches(self.groups@[g as int].settings@),
                    user_context@,
                );
                assert(self.groups@.take(g + 1).drop_last() =~= self.groups@.take(g as int));
                assert(self.groups@.take(g + 1).last() == self.groups@[g as int]);
            }
            g = g + 1;
        }
        assert(self.groups@.take(self.groups@.len() as int) =~= self.groups@);
        map
    }
}

} // verus!
