//! The first-in, first-out action manager: its actions, and how the results
//! of a task decide between success and failure.
pub mod actions;

use crate::action_runner::ActionResult;
use vstd::prelude::*;

verus! {

/// The place of the first result that failed, if any: a task fails with
/// that result's error output, and finishes otherwise.
pub fn first_failure(results: &Vec<ActionResult>) -> (r: Option<usize>)
    ensures
        match r {
            Some(k) => k < results@.len() && !results@[k as int].success && forall|j: int|
                0 <= j < k ==> results@[j].success,
            None => forall|j: int| 0 <= j < results@.len() ==> results@[j].success,
        },
{
    let mut i: usize = 0;
    while i < results.len()
        invariant
            i <= results@.len(),
            forall|j: int| 0 <= j < i ==> results@[j].success,
        decreases results@.len() - i,
    {
        if !results[i].success {
            return Some(i);
        }
        i = i + 1;
    }
    None
}

} // verus!
