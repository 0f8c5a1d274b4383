//! The run command: a Docker Compose service with extra arguments.

use crate::commands::{action_views, Action, ActionView};
use crate::text::{chars_of, extend_str, join, join_strings, string_of, string_views, text_of};
use vstd::prelude::*;

verus! {

/// The arguments appended to `docker compose run`: nothing, or a space and
/// the arguments separated by spaces.
pub open spec fn extra_args(args: Seq<Seq<char>>) -> Seq<char> {
    if args.len() == 0 {
        Seq::empty()
    } else {
        " "@ + join(args, " "@)
    }
}

/// What `run` does.
pub open spec fn run_actions(service: Seq<char>, args: Seq<Seq<char>>) -> Seq<ActionView> {
    seq![
        ActionView::RequireTool("docker"@),
        ActionView::Status("Running Docker service: "@ + service),
        ActionView::Run("docker compose run --rm "@ + service + extra_args(args)),
    ]
}

/// Execute the run command: its plan.
pub fn run(service: &str, args: &Vec<String>) -> (actions: Vec<Action>)
    ensures
        action_views(actions@) == run_actions(service@, string_views(args@)),
{
    let mut cmd = chars_of("docker compose run --rm ");
    extend_str(&mut cmd, service);
    if args.len() > 0 {
        extend_str(&mut cmd, " ");
        let joined = join_strings(args, " ");
        extend_str(&mut cmd, joined.as_str());
        assert(cmd@ =~= "docker compose run --rm "@ + service@ + extra_args(string_views(args@)));
    } else {
        assert(string_views(args@).len() == 0);
        assert(cmd@ =~= "docker compose run --rm "@ + service@ + extra_args(string_views(args@)));
    }
    let mut status = chars_of("Running Docker service: ");
    extend_str(&mut status, service);
    let mut actions: Vec<Action> = Vec::new();
    actions.push(Action::RequireTool(text_of("docker")));
    actions.push(Action::Status(string_of(&status)));
    actions.push(Action::Run(string_of(&cmd)));
    assert(action_views(actions@) =~= run_actions(service@, string_views(args@)));
    actions
}

/// The shell command of an external subcommand: its words joined by spaces.
pub fn external_command(args: &Vec<String>) -> (r: String)
    ensures
        r@ == join(string_views(args@), " "@),
{
    join_strings(args, " ")
}

} // verus!
