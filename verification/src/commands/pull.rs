//! The pull command.

use crate::commands::{action_views, Action, ActionView};
use crate::text::{concat2, text_of};
use vstd::prelude::*;

verus! {

/// What pulling one service does.
pub open spec fn pull_service_actions(name: Seq<char>) -> Seq<ActionView> {
    seq![
        ActionView::Status("Pulling Docker image: "@ + name),
        ActionView::Run("docker compose pull "@ + name),
    ]
}

/// Pull a specific Docker Compose service image: its plan.
pub fn pull_service(name: &str) -> (actions: Vec<Action>)
    ensures
        action_views(actions@) == pull_service_actions(name@),
{
    let mut actions: Vec<Action> = Vec::new();
    actions.push(Action::Status(concat2("Pulling Docker image: ", name)));
    actions.push(Action::Run(concat2("docker compose pull ", name)));
    assert(action_views(actions@) =~= pull_service_actions(name@));
    actions
}

/// The message for a service whose pull failed with error text `error`.
pub fn pull_failure_warning(service: &str, error: &str) -> (r: String)
    ensures
        r@ == "Failed to pull '"@ + service@ + "': "@ + error@,
{
    let mut v = crate::text::chars_of("Failed to pull '");
    crate::text::extend_str(&mut v, service);
    crate::text::extend_str(&mut v, "': ");
    crate::text::extend_str(&mut v, error);
    crate::text::string_of(&v)
}

/// The first action of every pull: Docker must be installed.
pub fn require_docker() -> (a: Action)
    ensures
        a.view() == ActionView::RequireTool("docker"@),
{
    Action::RequireTool(text_of("docker"))
}

} // verus!
