//! A page file: either a content page or a settings page.
use crate::action_runner::{ActionRunner, RunnerView};
use crate::pages::content_yaml::ContentPageYaml;
use crate::pages::settings_yaml::{group_switches, runner_map_view, switch_runners, SettingsPageYaml};
use crate::pages::YamlPage;
use crate::user_context::UserExecutionContext;
use std::collections::HashMap;
use std::sync::Arc;
use vstd::prelude::*;

verus! {

/// The description of one page, as a page file holds it.
#[derive(Debug)]
pub enum PageYaml {
    Content(ContentPageYaml),
    Settings(SettingsPageYaml),
}

impl PageYaml {
    /// The runners the page declares, keyed by identity.
    pub open spec fn spec_runners(
        &self,
        user_context: <UserExecutionContext as View>::V,
    ) -> Map<u64, RunnerView> {
        match self {
            PageYaml::Content(_) => Map::empty(),
            PageYaml::Settings(s) => switch_runners(group_switches(s.groups@), user_context),
        }
    }

    /// The runners the page declares, keyed by identity.
    pub fn into_action_runners(&self, user_context: &UserExecutionContext) -> (r: HashMap<
        u64,
        Arc<ActionRunner>,
    >)
        ensures
            runner_map_view(r@) == self.spec_runners(user_context@),
    {
        match self {
            PageYaml::Content(yaml) => {
                let r = yaml.get_action_runners(user_context);
                assert(runner_map_view(r@) =~= Map::<u64, RunnerView>::empty());
                r
            },
            PageYaml::Settings(yaml) => yaml.get_action_runners(user_context),
        }
    }
}

/// No page declares a runner with the wanted identity.
#[derive(Debug)]
pub struct RunnerNotFound {
    pub action_runner_id: u64,
}

impl ActionRunner {
    /// Finds the runner with identity `action_runner_id` among the runners the
    /// pages declare, searching the pages in order.
    pub fn from_id(
        action_runner_id: u64,
        user_context: &UserExecutionContext,
        pages: &Vec<PageYaml>,
    ) -> (r: Result<Arc<ActionRunner>, RunnerNotFound>)
        ensures
            match r {
                Ok(runner) => exists|k: int|
                    0 <= k < pages@.len() && #[trigger] pages@[k].spec_runners(
                        user_context@,
                    ).contains_key(action_runner_id) && runner@ == pages@[k].spec_runners(
                        user_context@,
                    )[action_runner_id] && forall|j: int|
                        0 <= j < k ==> !(#[trigger] pages@[j].spec_runners(
                            user_context@,
                        ).contains_key(action_runner_id)),
                Err(e) => e.action_runner_id == action_runner_id && forall|k: int|
                    0 <= k < pages@.len() ==> !(#[trigger] pages@[k].spec_runners(
                        user_context@,
                    ).contains_key(action_runner_id)),
            },
    {
        broadcast use vstd::std_specs::hash::group_hash_axioms;

        let mut i: usize = 0;
        while i < pages.len()
            invariant
                i <= pages@.len(),
                forall|j: int|
                    0 <= j < i ==> !(#[trigger] pages@[j].spec_runners(
                        user_context@,
                    ).contains_key(action_runner_id)),
            decreases pages@.len() - i,
        {
            let mut runners = pages[i].into_action_runners(user_context);
            let ghost before = runners@;
            let found = runners.remove(&action_runner_id);
            match found {
                Some(runner) => {
                    assert(before.contains_key(action_runner_id) && before[action_runner_id] == runner);
                    assert(runner_map_view(before).contains_key(action_runner_id));
                    assert(runner_map_view(before)[action_runner_id] == runner@);
                    assert(pages@[i as int].spec_runners(user_context@).contains_key(action_runner_id));
                    return Ok(runner);
                },
                None => {
                    assert(!runner_map_view(before).contains_key(action_runner_id));
                },
            }
            i = i + 1;
        }
        Err(RunnerNotFound { action_runner_id })
    }
}

} // verus!
