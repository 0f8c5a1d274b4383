//! The clean command.

use crate::commands::{action_views, Action, ActionView};
use crate::text::text_of;
use vstd::prelude::*;

verus! {

/// What `clean` does: remove build directories, egg-info, `__pycache__`,
/// notebook checkpoints and `.pyc` files, and with `all` also Rust's `target`;
/// every removal ignores failure.
pub open spec fn clean_actions(all: bool) -> Seq<ActionView> {
    seq![
        ActionView::Status("Cleaning build artifacts"@),
        ActionView::RunIgnoringError("rm -rf build"@),
        ActionView::RunIgnoringError("find . -type d -name '*egg-info*' -exec rm -rf {} + 2>/dev/null"@),
        ActionView::RunIgnoringError("find . -type d -name '__pycache__' -exec rm -rf {} + 2>/dev/null"@),
        ActionView::RunIgnoringError("find . -type d -name '.ipynb_checkpoints' -exec rm -rf {} + 2>/dev/null"@),
        ActionView::RunIgnoringError("find . -type f -name '*.pyc' -delete 2>/dev/null"@),
    ] + (if all {
        seq![
            ActionView::Status("Cleaning Rust target directory"@),
            ActionView::RunIgnoringError("rm -rf target"@),
        ]
    } else {
        Seq::empty()
    }) + seq![ActionView::Status("Clean completed"@)]
}

/// Execute the clean command: its plan.
pub fn run(all: bool) -> (actions: Vec<Action>)
    ensures
        action_views(actions@) == clean_actions(all),
{
    let mut actions: Vec<Action> = Vec::new();
    actions.push(Action::Status(text_of("Cleaning build artifacts")));
    actions.push(Action::RunIgnoringError(text_of("rm -rf build")));
    actions.push(Action::RunIgnoringError(text_of("find . -type d -name '*egg-info*' -exec rm -rf {} + 2>/dev/null")));
    actions.push(Action::RunIgnoringError(text_of("find . -type d -name '__pycache__' -exec rm -rf {} + 2>/dev/null")));
    actions.push(Action::RunIgnoringError(text_of("find . -type d -name '.ipynb_checkpoints' -exec rm -rf {} + 2>/dev/null")));
    actions.push(Action::RunIgnoringError(text_of("find . -type f -name '*.pyc' -delete 2>/dev/null")));
    if all {
        actions.push(Action::Status(text_of("Cleaning Rust target directory")));
        actions.push(Action::RunIgnoringError(text_of("rm -rf target")));
    }
    actions.push(Action::Status(text_of("Clean completed")));
    assert(action_views(actions@) =~= clean_actions(all));
    actions
}

} // verus!
