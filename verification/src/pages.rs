//! The page model read from YAML files: content pages and settings pages.
pub mod content_yaml;
pub mod page_config;
pub mod settings_yaml;

use crate::action_runner::ActionRunner;
use crate::user_context::UserExecutionContext;
use std::collections::HashMap;
use std::sync::Arc;
use vstd::prelude::*;

verus! {

/// A page whose description declares runners.
pub trait YamlPage {
    /// Every runner the page declares, keyed by identity.
    fn get_action_runners(&self, user_context: &UserExecutionContext) -> HashMap<
        u64,
        Arc<ActionRunner>,
    >;
}

} // verus!
