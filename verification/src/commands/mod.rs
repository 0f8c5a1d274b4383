//! Planning of the build, clean, Cython, doctor, pull, Python and run commands.
//!
//! A command is planned as a list of actions that the caller carries out in
//! order, stopping at the first failing one.

pub mod build_command;
pub mod clean;
pub mod cython;
pub mod doctor;
pub mod pull;
pub mod python;
pub mod run;
pub mod templates;

use vstd::prelude::*;

verus! {

/// One action of a planned command.
pub enum Action {
    /// Fail unless the tool is installed (`check_tool`).
    RequireTool(String),
    /// Print a status message (`print_status`).
    Status(String),
    /// Run a shell command; its failure fails the plan (`exec`).
    Run(String),
    /// Run a shell command silently and ignore its failure (`exec_ignore_error`).
    RunIgnoringError(String),
}

/// An action with its text as a character sequence.
pub enum ActionView {
    RequireTool(Seq<char>),
    Status(Seq<char>),
    Run(Seq<char>),
    RunIgnoringError(Seq<char>),
}

impl Action {
    /// The action with its text as a character sequence.
    pub open spec fn view(self) -> ActionView {
        match self {
            Action::RequireTool(s) => ActionView::RequireTool(s@),
            Action::Status(s) => ActionView::Status(s@),
            Action::Run(s) => ActionView::Run(s@),
            Action::RunIgnoringError(s) => ActionView::RunIgnoringError(s@),
        }
    }
}

/// The views of a list of actions.
pub open spec fn action_views(actions: Seq<Action>) -> Seq<ActionView> {
    actions.map_values(|a: Action| a.view())
}

/// Whether the outcome of an action ends the plan: a failed tool check or a
/// failed command does; a status message and a command whose failure is
/// ignored never do, nor does any success.
pub open spec fn stops_plan(a: ActionView, succeeded: bool) -> bool {
    !succeeded && (a is RequireTool || a is Run)
}

/// Whether the plan stops after `a` was carried out with the given outcome.
pub fn stops_after(a: &Action, succeeded: bool) -> (stop: bool)
    ensures
        stop == stops_plan(a.view(), succeeded),
{
    if succeeded {
        false
    } else {
        match a {
            Action::RequireTool(_) => true,
            Action::Run(_) => true,
            Action::Status(_) => false,
            Action::RunIgnoringError(_) => false,
        }
    }
}

/// Messages and commands whose failure is ignored never end a plan, and a
/// successful action never does.
pub proof fn law_only_checks_and_commands_stop(a: ActionView, succeeded: bool)
    ensures
        succeeded ==> !stops_plan(a, succeeded),
        (a is Status || a is RunIgnoringError) ==> !stops_plan(a, succeeded),
{
}

/// Attempts items `0..n` of a batch (`build all`, `pull all`) in order,
/// whatever the earlier ones gave, and collects what each attempt reported:
/// `None` for success, else the failure's text. Such a batch goes on past
/// every failure and does not fail as a whole.
pub fn attempt_each<F: Fn(usize) -> Option<String>>(n: usize, attempt: &F) -> (reports: Vec<Option<String>>)
    requires
        forall|i: usize| i < n ==> call_requires(*attempt, (i,)),
    ensures
        reports@.len() == n,
        forall|i: usize| i < n ==> call_ensures(*attempt, (i,), #[trigger] reports@[i as int]),
{
    let mut reports: Vec<Option<String>> = Vec::new();
    for i in 0..n
        invariant
            forall|j: usize| j < n ==> call_requires(*attempt, (j,)),
            reports@.len() == i,
            forall|j: usize| j < i ==> call_ensures(*attempt, (j,), #[trigger] reports@[j as int]),
    {
        let report = attempt(i);
        reports.push(report);
    }
    reports
}

/// The services that `build all` and `pull all` handle.
pub open spec fn default_services() -> Seq<Seq<char>> {
    seq!["vanilla"@, "sandbox"@]
}

/// The services that `build all` and `pull all` handle, in order.
pub fn default_service_names() -> (r: Vec<String>)
    ensures
        crate::text::string_views(r@) == default_services(),
{
    let r = vec![crate::text::text_of("vanilla"), crate::text::text_of("sandbox")];
    assert(crate::text::string_views(r@) =~= default_services());
    r
}

} // verus!
