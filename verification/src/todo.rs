//! The one rule the to-do handlers decide for themselves: merging a partial
//! update into the stored item. Reading and writing the rows stays with the
//! persistence collaborator; only the merged values come from here.

use vstd::prelude::*;

verus! {

/// The mutable part of a stored to-do item.
#[derive(Debug)]
pub struct TodoState {
    pub title: String,
    pub description: Option<String>,
    pub completed: bool,
}

/// A partial update: every field a client may send, each optional.
#[derive(Debug)]
pub struct TodoPatch {
    pub title: Option<String>,
    pub description: Option<String>,
    pub completion: Option<bool>,
}

/// Merges a partial update into the current state: each field the patch
/// supplies replaces the stored one, each field it omits keeps the stored
/// value. A patch cannot clear the description — omitting it keeps the old
/// one.
pub fn apply_patch(current: TodoState, patch: &TodoPatch) -> (merged: TodoState)
    ensures
        merged.title@ == match patch.title {
            Some(t) => t@,
            None => current.title@,
        },
        merged.description.deep_view() == match patch.description {
            Some(d) => Some(d@),
            None => current.description.deep_view(),
        },
        merged.completed == match patch.completion {
            Some(c) => c,
            None => current.completed,
        },
{
    let title = match &patch.title {
        Some(t) => t.clone(),
        None => current.title,
    };
    let description = match &patch.description {
        Some(d) => Some(d.clone()),
        None => current.description,
    };
    let completed = match patch.completion {
        Some(c) => c,
        None => current.completed,
    };
    TodoState { title, description, completed }
}

} // verus!
