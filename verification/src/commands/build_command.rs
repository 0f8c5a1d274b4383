//! The build command: Python wheels, Rust binaries and Docker services.

use crate::cli::CargoBuildMode;
use crate::commands::{action_views, Action, ActionView};
use crate::text::{chars_of, extend_str, string_of, text_of};
use vstd::prelude::*;

verus! {

/// Where cargo builds for an OS and architecture: `target/<os>/<arch>`.
pub open spec fn cargo_target_dir(os: Seq<char>, arch: Seq<char>) -> Seq<char> {
    "target/"@ + os + "/"@ + arch
}

/// The name of a build mode as `{:?}` prints it.
pub open spec fn mode_name(mode: CargoBuildMode) -> Seq<char> {
    match mode {
        CargoBuildMode::Debug => "Debug"@,
        CargoBuildMode::Release => "Release"@,
    }
}

/// The cargo command line: `--release` for a release build.
pub open spec fn cargo_command(mode: CargoBuildMode, target_dir: Seq<char>) -> Seq<char> {
    match mode {
        CargoBuildMode::Debug => "cargo build --target-dir "@ + target_dir,
        CargoBuildMode::Release => "cargo build --release --target-dir "@ + target_dir,
    }
}

/// What a cargo build does once the OS (`uname`) and architecture (`uname -m`) are known.
pub open spec fn cargo_build_actions(mode: CargoBuildMode, os: Seq<char>, arch: Seq<char>) -> Seq<ActionView> {
    let dir = cargo_target_dir(os, arch);
    seq![
        ActionView::Status("Building Rust binary ("@ + mode_name(mode) + " mode)"@),
        ActionView::Run(cargo_command(mode, dir)),
        ActionView::Status("Binary built in "@ + dir),
    ]
}

/// Build a Rust binary using cargo: the plan after the tool check and the
/// `uname` queries.
pub fn cargo_build(mode: CargoBuildMode, os: &str, arch: &str) -> (actions: Vec<Action>)
    ensures
        action_views(actions@) == cargo_build_actions(mode, os@, arch@),
{
    let mut dir = chars_of("target/");
    extend_str(&mut dir, os);
    extend_str(&mut dir, "/");
    extend_str(&mut dir, arch);
    let dir = string_of(&dir);
    let mut status = chars_of("Building Rust binary (");
    match mode {
        CargoBuildMode::Debug => extend_str(&mut status, "Debug"),
        CargoBuildMode::Release => extend_str(&mut status, "Release"),
    }
    extend_str(&mut status, " mode)");
    let mut cmd = match mode {
        CargoBuildMode::Debug => chars_of("cargo build --target-dir "),
        CargoBuildMode::Release => chars_of("cargo build --release --target-dir "),
    };
    extend_str(&mut cmd, dir.as_str());
    let mut done = chars_of("Binary built in ");
    extend_str(&mut done, dir.as_str());
    let mut actions: Vec<Action> = Vec::new();
    actions.push(Action::Status(string_of(&status)));
    actions.push(Action::Run(string_of(&cmd)));
    actions.push(Action::Status(string_of(&done)));
    assert(action_views(actions@) =~= cargo_build_actions(mode, os@, arch@));
    actions
}

/// What building a wheel does: move old wheels aside, build with `uv build --wheel`, clean up.
pub open spec fn wheel_actions() -> Seq<ActionView> {
    seq![
        ActionView::RequireTool("uv"@),
        ActionView::Status("Building Python wheel"@),
        ActionView::RunIgnoringError("mkdir -p dist/legacy"@),
        ActionView::RunIgnoringError("mv dist/*.whl dist/legacy/ 2>/dev/null"@),
        ActionView::Run("uv build --wheel"@),
        ActionView::Run("rsbuild clean"@),
        ActionView::Status("Wheel built in dist/"@),
    ]
}

/// Build a Python wheel: its plan.
pub fn build_wheel() -> (actions: Vec<Action>)
    ensures
        action_views(actions@) == wheel_actions(),
{
    let mut actions: Vec<Action> = Vec::new();
    actions.push(Action::RequireTool(text_of("uv")));
    actions.push(Action::Status(text_of("Building Python wheel")));
    actions.push(Action::RunIgnoringError(text_of("mkdir -p dist/legacy")));
    actions.push(Action::RunIgnoringError(text_of("mv dist/*.whl dist/legacy/ 2>/dev/null")));
    actions.push(Action::Run(text_of("uv build --wheel")));
    actions.push(Action::Run(text_of("rsbuild clean")));
    actions.push(Action::Status(text_of("Wheel built in dist/")));
    assert(action_views(actions@) =~= wheel_actions());
    actions
}

/// The compose build command line, without the cache when asked.
pub open spec fn docker_command(service: Seq<char>, no_cache: bool) -> Seq<char> {
    if no_cache {
        "docker compose build --no-cache "@ + service
    } else {
        "docker compose build "@ + service
    }
}

/// What building a Docker Compose service does.
pub open spec fn docker_actions(service: Seq<char>, no_cache: bool) -> Seq<ActionView> {
    seq![
        ActionView::RequireTool("docker"@),
        ActionView::Status("Building Docker service: "@ + service),
        ActionView::Run(docker_command(service, no_cache)),
        ActionView::Status("Docker service '"@ + service + "' built successfully"@),
    ]
}

/// Build a Docker Compose service: its plan.
pub fn build_docker(service: &str, no_cache: bool) -> (actions: Vec<Action>)
    ensures
        action_views(actions@) == docker_actions(service@, no_cache),
{
    let mut status = chars_of("Building Docker service: ");
    extend_str(&mut status, service);
    let mut cmd = if no_cache {
        chars_of("docker compose build --no-cache ")
    } else {
        chars_of("docker compose build ")
    };
    extend_str(&mut cmd, service);
    let mut done = chars_of("Docker service '");
    extend_str(&mut done, service);
    extend_str(&mut done, "' built successfully");
    let mut actions: Vec<Action> = Vec::new();
    actions.push(Action::RequireTool(text_of("docker")));
    actions.push(Action::Status(string_of(&status)));
    actions.push(Action::Run(string_of(&cmd)));
    actions.push(Action::Status(string_of(&done)));
    assert(action_views(actions@) =~= docker_actions(service@, no_cache));
    actions
}

/// The warning for a failed wheel build within `build all`.
pub fn wheel_failure_warning(error: &str) -> (r: String)
    ensures
        r@ == "Wheel build failed: "@ + error@,
{
    crate::text::concat2("Wheel build failed: ", error)
}

/// The warning for a failed service build within `build all`.
pub fn docker_failure_warning(service: &str, error: &str) -> (r: String)
    ensures
        r@ == "Docker build '"@ + service@ + "' failed: "@ + error@,
{
    let mut v = chars_of("Docker build '");
    extend_str(&mut v, service);
    extend_str(&mut v, "' failed: ");
    extend_str(&mut v, error);
    string_of(&v)
}

} // verus!
