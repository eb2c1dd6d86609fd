//! Pages of text.
use crate::action_runner::ActionRunner;
use crate::pages::YamlPage;
use crate::user_context::UserExecutionContext;
use std::collections::HashMap;
use std::sync::Arc;
use vstd::prelude::*;

verus! {

/// How a paragraph is aligned.
#[derive(PartialEq, Eq, Structural, Clone, Copy, Debug)]
pub enum TextAlign {
    Left,
    Center,
    Fill,
}

impl Default for TextAlign {
    /// Paragraphs are left-aligned unless the page says otherwise.
    fn default() -> (r: Self)
        ensures
            r == TextAlign::Left,
    {
        TextAlign::Left
    }
}

/// The top of a content page: an optional icon and an optional title.
#[derive(Debug)]
pub struct Header {
    pub icon: Option<String>,
    pub text: Option<String>,
}

/// One paragraph; `pango` marks text with Pango markup.
#[derive(Debug)]
pub struct Content {
    pub pango: bool,
    pub align: TextAlign,
    pub text: String,
}

/// A page of text.
#[derive(Debug)]
pub struct ContentPageYaml {
    pub title: String,
    pub section: Option<String>,
    pub icon: String,
    pub header: Option<Header>,
    pub contents: Option<Vec<Content>>,
}

impl YamlPage for ContentPageYaml {
    /// A content page declares no runners.
    fn get_action_runners(&self, _user_context: &UserExecutionContext) -> (r: HashMap<
        u64,
        Arc<ActionRunner>,
    >)
        ensures
            r@ == Map::<u64, Arc<ActionRunner>>::empty(),
    {
        HashMap::new()
    }
}

} // verus!
