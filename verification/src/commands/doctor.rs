//! The doctor command: which tools and project files are present.

use crate::text::{string_views, text_of};
use vstd::prelude::*;

verus! {

/// A tool and what it is needed for.
pub struct ToolEntry {
    pub tool: String,
    pub purpose: String,
}

/// The tool and purpose of an entry as character sequences.
pub open spec fn entry_view(e: ToolEntry) -> (Seq<char>, Seq<char>) {
    (e.tool@, e.purpose@)
}

/// Tools without which builds fail.
pub open spec fn required_tool_list() -> Seq<(Seq<char>, Seq<char>)> {
    seq![("cargo"@, "Rust builds"@), ("docker"@, "Docker builds"@)]
}

/// Tools that some commands use.
pub open spec fn optional_tool_list() -> Seq<(Seq<char>, Seq<char>)> {
    seq![
        ("uv"@, "Python package management & wheel builds"@),
        ("task"@, "Task runner (Taskfile)"@),
        ("pip"@, "Python package installer (legacy)"@),
        ("cythonize"@, "Cython compilation"@),
        ("rsync"@, "Cython packaging"@),
        ("glances"@, "System monitoring"@),
        ("pre-commit"@, "Git hooks"@),
    ]
}

fn entry(tool: &str, purpose: &str) -> (e: ToolEntry)
    ensures
        entry_view(e) == (tool@, purpose@),
{
    ToolEntry { tool: text_of(tool), purpose: text_of(purpose) }
}

/// Tools without which builds fail, in the order they are reported.
pub fn required_tools() -> (r: Vec<ToolEntry>)
    ensures
        r@.map_values(|e: ToolEntry| entry_view(e)) == required_tool_list(),
{
    let r = vec![entry("cargo", "Rust builds"), entry("docker", "Docker builds")];
    assert(r@.map_values(|e: ToolEntry| entry_view(e)) =~= required_tool_list());
    r
}

/// Tools that some commands use, in the order they are reported.
pub fn optional_tools() -> (r: Vec<ToolEntry>)
    ensures
        r@.map_values(|e: ToolEntry| entry_view(e)) == optional_tool_list(),
{
    let r = vec![
        entry("uv", "Python package management & wheel builds"),
        entry("task", "Task runner (Taskfile)"),
        entry("pip", "Python package installer (legacy)"),
        entry("cythonize", "Cython compilation"),
        entry("rsync", "Cython packaging"),
        entry("glances", "System monitoring"),
        entry("pre-commit", "Git hooks"),
    ];
    assert(r@.map_values(|e: ToolEntry| entry_view(e)) =~= optional_tool_list());
    r
}

/// A project file as reported, and the paths any of which counts as it.
pub struct FileGroup {
    pub label: String,
    pub paths: Vec<String>,
}

/// The label and candidate paths of a group as character sequences.
pub open spec fn group_view(g: FileGroup) -> (Seq<char>, Seq<Seq<char>>) {
    (g.label@, string_views(g.paths@))
}

/// The project files that doctor looks for.
pub open spec fn project_file_list() -> Seq<(Seq<char>, Seq<Seq<char>>)> {
    seq![
        ("docker-compose.yml"@, seq!["docker-compose.yml"@, "compose.yml"@]),
        ("pyproject.toml"@, seq!["pyproject.toml"@, "setup.py"@]),
        ("Cargo.toml"@, seq!["Cargo.toml"@]),
        ("Taskfile.yml"@, seq!["Taskfile.yml"@, "Taskfile.yaml"@, "taskfile.yml"@]),
        (".pre-commit-config.yaml"@, seq![".pre-commit-config.yaml"@]),
    ]
}

/// Doctor's compose file is found under either name that Docker watch mode
/// reacts to: its candidate paths are exactly the Docker watch patterns that
/// name a YAML file, `docker-compose.yml` and `compose.yml`.
pub proof fn law_compose_names_agree()
    ensures
        project_file_list()[0].0 == "docker-compose.yml"@,
        project_file_list()[0].1 == seq!["docker-compose.yml"@, "compose.yml"@],
        forall|p: Seq<char>| #[trigger] project_file_list()[0].1.contains(p) <==> (
            crate::watch::patterns_of(crate::cli::WatchTarget::Docker).contains(p) && crate::text::has_suffix(p, ".yml"@)),
{
    reveal_strlit("docker-compose.yml");
    reveal_strlit("compose.yml");
    reveal_strlit("Dockerfile");
    reveal_strlit(".dockerfile");
    reveal_strlit(".yml");
    let names = project_file_list()[0].1;
    let pats = crate::watch::patterns_of(crate::cli::WatchTarget::Docker);
    assert(crate::text::has_suffix("docker-compose.yml"@, ".yml"@)) by {
        assert("docker-compose.yml"@.skip(14) =~= ".yml"@);
    }
    assert(crate::text::has_suffix("compose.yml"@, ".yml"@)) by {
        assert("compose.yml"@.skip(7) =~= ".yml"@);
    }
    assert(!crate::text::has_suffix("Dockerfile"@, ".yml"@)) by {
        assert("Dockerfile"@.skip(6)[0] != ".yml"@[0]);
    }
    assert(!crate::text::has_suffix(".dockerfile"@, ".yml"@)) by {
        assert(".dockerfile"@.skip(7)[0] != ".yml"@[0]);
    }
    assert forall|p: Seq<char>| #[trigger] names.contains(p) <==> (pats.contains(p) && crate::text::has_suffix(p, ".yml"@)) by {
        if names.contains(p) {
            let i = choose|i: int| 0 <= i < names.len() && names[i] == p;
            if i == 0 {
                assert(pats[1] == p);
            } else {
                assert(pats[2] == p);
            }
        }
        if pats.contains(p) && crate::text::has_suffix(p, ".yml"@) {
            let i = choose|i: int| 0 <= i < pats.len() && pats[i] == p;
            if i == 1 {
                assert(names[0] == p);
            } else if i == 2 {
                assert(names[1] == p);
            }
        }
    }
}

fn group(label: &str, paths: Vec<String>) -> (g: FileGroup)
    ensures
        group_view(g) == (label@, string_views(paths@)),
{
    FileGroup { label: text_of(label), paths }
}

/// The project files that doctor looks for, in the order they are reported.
pub fn project_file_groups() -> (r: Vec<FileGroup>)
    ensures
        r@.map_values(|g: FileGroup| group_view(g)) == project_file_list(),
{
    let a = vec![text_of("docker-compose.yml"), text_of("compose.yml")];
    assert(string_views(a@) =~= seq!["docker-compose.yml"@, "compose.yml"@]);
    let b = vec![text_of("pyproject.toml"), text_of("setup.py")];
    assert(string_views(b@) =~= seq!["pyproject.toml"@, "setup.py"@]);
    let c = vec![text_of("Cargo.toml")];
    assert(string_views(c@) =~= seq!["Cargo.toml"@]);
    let d = vec![text_of("Taskfile.yml"), text_of("Taskfile.yaml"), text_of("taskfile.yml")];
    assert(string_views(d@) =~= seq!["Taskfile.yml"@, "Taskfile.yaml"@, "taskfile.yml"@]);
    let e = vec![text_of(".pre-commit-config.yaml")];
    assert(string_views(e@) =~= seq![".pre-commit-config.yaml"@]);
    let r = vec![
        group("docker-compose.yml", a),
        group("pyproject.toml", b),
        group("Cargo.toml", c),
        group("Taskfile.yml", d),
        group(".pre-commit-config.yaml", e),
    ];
    assert(r@.map_values(|g: FileGroup| group_view(g)) =~= project_file_list());
    r
}

/// Whether every required tool was found.
pub fn all_found(found: &Vec<bool>) -> (r: bool)
    ensures
        r == (forall|i: int| 0 <= i < found@.len() ==> found@[i]),
{
    for i in 0..found.len()
        invariant
            forall|j: int| 0 <= j < i ==> found@[j],
    {
        if !found[i] {
            return false;
        }
    }
    true
}

} // verus!
