//! The merge rule for partial to-do updates.

use auth_core::todo::{apply_patch, TodoPatch, TodoState};

fn current() -> TodoState {
    TodoState {
        title: "buy milk".to_string(),
        description: Some("two litres".to_string()),
        completed: false,
    }
}

#[test]
fn empty_patch_keeps_every_field() {
    let merged = apply_patch(current(), &TodoPatch { title: None, description: None, completion: None });
    assert_eq!(merged.title, "buy milk");
    assert_eq!(merged.description, Some("two litres".to_string()));
    assert!(!merged.completed);
}

#[test]
fn supplied_fields_replace_and_omitted_fields_stay() {
    let merged = apply_patch(
        current(),
        &TodoPatch {
            title: Some("buy oat milk".to_string()),
            description: None,
            completion: Some(true),
        },
    );
    assert_eq!(merged.title, "buy oat milk");
    assert_eq!(merged.description, Some("two litres".to_string()));
    assert!(merged.completed);
}

#[test]
fn omitting_the_description_cannot_clear_it() {
    let merged = apply_patch(
        current(),
        &TodoPatch { title: None, description: Some("oat, please".to_string()), completion: None },
    );
    assert_eq!(merged.description, Some("oat, please".to_string()));

    let kept = apply_patch(
        TodoState { title: "t".to_string(), description: None, completed: false },
        &TodoPatch { title: None, description: None, completion: None },
    );
    assert_eq!(kept.description, None);
}
