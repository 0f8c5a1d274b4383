//! The cython command: compile a package's Cython modules and package the
//! shared objects into a wheel, in a temporary build directory.

use crate::commands::{action_views, Action, ActionView};
use crate::error::RsbuildError;
use crate::text::{chars_of, extend_str, string_of, text_of};
use vstd::prelude::*;

verus! {

/// Temporary build directory prefix.
pub const BUILD_DIR_PREFIX: &'static str = "/tmp/rsbuild-cython";

/// The temporary build directory of `package`.
pub open spec fn build_dir_of(package: Seq<char>) -> Seq<char> {
    BUILD_DIR_PREFIX@ + "-"@ + package
}

/// The temporary build directory of `package`.
pub fn build_dir(package: &str) -> (r: String)
    ensures
        r@ == build_dir_of(package@),
{
    let mut v = chars_of(BUILD_DIR_PREFIX);
    extend_str(&mut v, "-");
    extend_str(&mut v, package);
    string_of(&v)
}

/// The package to compile must be a directory: `Ok` when it is, else
/// `PathNotFound` naming the package.
pub fn package_check(package: &str, is_dir: bool) -> (r: Result<(), RsbuildError>)
    ensures
        is_dir ==> r is Ok,
        !is_dir ==> (r matches Err(RsbuildError::PathNotFound { path }) && path@ == package@),
{
    if is_dir {
        Ok(())
    } else {
        Err(RsbuildError::PathNotFound { path: text_of(package) })
    }
}

/// The tools that the cython command checks first, in order.
pub open spec fn required_tools() -> Seq<ActionView> {
    seq![
        ActionView::RequireTool("cythonize"@),
        ActionView::RequireTool("rsync"@),
        ActionView::RequireTool("pip"@),
    ]
}

/// The tool checks that come before anything else.
pub fn tool_checks() -> (actions: Vec<Action>)
    ensures
        action_views(actions@) == required_tools(),
{
    let actions = vec![
        Action::RequireTool(text_of("cythonize")),
        Action::RequireTool(text_of("rsync")),
        Action::RequireTool(text_of("pip")),
    ];
    assert(action_views(actions@) =~= required_tools());
    actions
}

/// The project files copied into the build directory where they exist.
pub open spec fn project_files() -> Seq<Seq<char>> {
    seq!["requirements.txt"@, "setup.cfg"@, "setup.py"@, "pyproject.toml"@]
}

/// The project files copied into the build directory where they exist, in order.
pub fn project_file_names() -> (r: Vec<String>)
    ensures
        crate::text::string_views(r@) == project_files(),
{
    let r = vec![
        text_of("requirements.txt"),
        text_of("setup.cfg"),
        text_of("setup.py"),
        text_of("pyproject.toml"),
    ];
    assert(crate::text::string_views(r@) =~= project_files());
    r
}

/// The copy of the `i`-th project file, where it is present.
pub open spec fn copy_action(present: Seq<bool>, i: int, dir: Seq<char>) -> Seq<ActionView> {
    if present[i] {
        seq![ActionView::RunIgnoringError("cp "@ + project_files()[i] + " "@ + dir)]
    } else {
        Seq::empty()
    }
}

/// The copies of the first `n` project files.
pub open spec fn copy_seq(present: Seq<bool>, n: int, dir: Seq<char>) -> Seq<ActionView>
    decreases n,
{
    if n <= 0 {
        Seq::empty()
    } else {
        copy_seq(present, n - 1, dir) + copy_action(present, n - 1, dir)
    }
}

/// Setting up the build directory: clear it, create `dist/legacy` in it, and
/// copy in the project files that are present (`present[i]` for the `i`-th).
pub open spec fn setup_actions(dir: Seq<char>, present: Seq<bool>) -> Seq<ActionView> {
    seq![
        ActionView::RunIgnoringError("rm -rf "@ + dir),
        ActionView::Run("mkdir -p "@ + dir + "/dist/legacy"@),
    ] + copy_seq(present, 4, dir)
}

/// Copying `file` into `dir`, ignoring failure.
pub open spec fn copy_command(file: Seq<char>, dir: Seq<char>) -> ActionView {
    ActionView::RunIgnoringError("cp "@ + file + " "@ + dir)
}

proof fn lemma_contains_concat(a: Seq<ActionView>, b: Seq<ActionView>, x: ActionView)
    ensures
        (a + b).contains(x) <==> (a.contains(x) || b.contains(x)),
{
    if (a + b).contains(x) {
        let i = choose|i: int| 0 <= i < (a + b).len() && (a + b)[i] == x;
        if i < a.len() {
            assert(a[i] == x);
        } else {
            assert(b[i - a.len()] == x);
        }
    }
    if a.contains(x) {
        let i = choose|i: int| 0 <= i < a.len() && a[i] == x;
        assert((a + b)[i] == x);
    }
    if b.contains(x) {
        let i = choose|i: int| 0 <= i < b.len() && b[i] == x;
        assert((a + b)[a.len() + i] == x);
    }
}

/// Two texts that differ at position `k` are different.
proof fn lemma_differ_at(p: Seq<char>, q: Seq<char>, k: int)
    requires
        0 <= k < p.len(),
        k < q.len(),
        p[k] != q[k],
    ensures
        p != q,
{
}

/// Setting up the build directory copies each of `requirements.txt`,
/// `setup.cfg`, `setup.py` and `pyproject.toml` into it exactly when that
/// file is present: no present file is left behind, and no absent one is
/// copied.
pub proof fn law_setup_copies_present_files(dir: Seq<char>, present: Seq<bool>)
    requires
        present.len() == 4,
    ensures
        setup_actions(dir, present).contains(copy_command("requirements.txt"@, dir)) <==> present[0],
        setup_actions(dir, present).contains(copy_command("setup.cfg"@, dir)) <==> present[1],
        setup_actions(dir, present).contains(copy_command("setup.py"@, dir)) <==> present[2],
        setup_actions(dir, present).contains(copy_command("pyproject.toml"@, dir)) <==> present[3],
{
    reveal_strlit("requirements.txt");
    reveal_strlit("setup.cfg");
    reveal_strlit("setup.py");
    reveal_strlit("pyproject.toml");
    reveal_strlit("cp ");
    reveal_strlit(" ");
    reveal_strlit("rm -rf ");
    let f = project_files();
    assert(f[0] == "requirements.txt"@ && f[1] == "setup.cfg"@ && f[2] == "setup.py"@ && f[3] == "pyproject.toml"@);
    let c = |k: int| "cp "@ + f[k] + " "@ + dir;
    let head = seq![
        ActionView::RunIgnoringError("rm -rf "@ + dir),
        ActionView::Run("mkdir -p "@ + dir + "/dist/legacy"@),
    ];
    let ca0 = copy_action(present, 0, dir);
    let ca1 = copy_action(present, 1, dir);
    let ca2 = copy_action(present, 2, dir);
    let ca3 = copy_action(present, 3, dir);
    assert(copy_seq(present, 0, dir) =~= Seq::<ActionView>::empty());
    assert(copy_seq(present, 1, dir) =~= ca0);
    assert(copy_seq(present, 2, dir) =~= ca0 + ca1);
    assert(copy_seq(present, 3, dir) =~= ca0 + ca1 + ca2);
    assert(copy_seq(present, 4, dir) =~= ca0 + ca1 + ca2 + ca3);
    let all = setup_actions(dir, present);
    assert(all =~= head + ca0 + ca1 + ca2 + ca3);
    // the copy commands differ from each other and from the removal
    assert forall|i: int, j: int| 0 <= i < 4 && 0 <= j < 4 && i != j implies #[trigger] c(i) != #[trigger] c(j) by {
        if (i == 0 || j == 0) {
            lemma_differ_at(c(i), c(j), 3);
        } else if (i == 3 || j == 3) {
            lemma_differ_at(c(i), c(j), 3);
        } else {
            lemma_differ_at(c(i), c(j), 9);
        }
    }
    assert forall|i: int| 0 <= i < 4 implies !head.contains(#[trigger] copy_command(f[i], dir)) by {
        lemma_differ_at(c(i), "rm -rf "@ + dir, 0);
        if head.contains(copy_command(f[i], dir)) {
            let k = choose|k: int| 0 <= k < head.len() && head[k] == copy_command(f[i], dir);
        }
    }
    assert forall|i: int, j: int| 0 <= i < 4 && 0 <= j < 4 implies (#[trigger] copy_action(present, j, dir).contains(
        #[trigger] copy_command(f[i], dir)) <==> (present[j] && i == j)) by {
        if present[j] {
            assert(copy_action(present, j, dir)[0] == copy_command(f[j], dir));
            if copy_action(present, j, dir).contains(copy_command(f[i], dir)) && i != j {
                assert(c(i) != c(j));
            }
        }
    }
    assert forall|i: int| 0 <= i < 4 implies (#[trigger] all.contains(copy_command(f[i], dir)) <==> present[i]) by {
        let x = copy_command(f[i], dir);
        lemma_contains_concat(head + ca0 + ca1 + ca2, ca3, x);
        lemma_contains_concat(head + ca0 + ca1, ca2, x);
        lemma_contains_concat(head + ca0, ca1, x);
        lemma_contains_concat(head, ca0, x);
        assert(ca0.contains(x) <==> (present[0] && i == 0));
        assert(ca1.contains(x) <==> (present[1] && i == 1));
        assert(ca2.contains(x) <==> (present[2] && i == 2));
        assert(ca3.contains(x) <==> (present[3] && i == 3));
    }
    assert(all.contains(copy_command(f[0], dir)) <==> present[0]);
    assert(all.contains(copy_command(f[1], dir)) <==> present[1]);
    assert(all.contains(copy_command(f[2], dir)) <==> present[2]);
    assert(all.contains(copy_command(f[3], dir)) <==> present[3]);
}

/// Compiling: cythonize the package, clean, drop the C files, and move the
/// shared objects into the build directory.
pub open spec fn compile_actions(package: Seq<char>, dir: Seq<char>) -> Seq<ActionView> {
    seq![
        ActionView::Run("cythonize -a -i "@ + package),
        ActionView::Run("rsbuild clean"@),
        ActionView::Run("find ./"@ + package + " -type f -name '*.c' -delete 2>/dev/null || true"@),
        ActionView::Run("find "@ + package + " -type f -name '*.so' > /tmp/rsbuild_so_files"@),
        ActionView::Run("rsync -av --files-from=/tmp/rsbuild_so_files ./ "@ + dir),
        ActionView::Run("find ./"@ + package + " -type f -name '*.so' -delete 2>/dev/null || true"@),
    ]
}

/// Finishing: build the wheel in the build directory, clean up, move the
/// wheel into `dist/` and remove the build directory.
pub open spec fn finalize_actions(dir: Seq<char>) -> Seq<ActionView> {
    seq![
        ActionView::Run("cd "@ + dir + " && rsbuild build wheel"@),
        ActionView::Run("rsbuild clean"@),
        ActionView::Run("rm -f /tmp/rsbuild_so_files"@),
        ActionView::RunIgnoringError("find . -type f -name '*.html' -delete 2>/dev/null"@),
        ActionView::Run("mkdir -p dist && mv "@ + dir + "/dist/*.whl dist/"@),
        ActionView::RunIgnoringError("rm -rf "@ + dir),
    ]
}

/// What the cython command does once the tools are there and `package` is a
/// directory; `present[i]` says whether the `i`-th project file exists.
pub open spec fn cython_actions(package: Seq<char>, present: Seq<bool>) -> Seq<ActionView> {
    let dir = build_dir_of(package);
    seq![ActionView::Status("Compiling Cython package: "@ + package)] + setup_actions(dir, present)
        + compile_actions(package, dir) + finalize_actions(dir) + seq![
        ActionView::Status("Cython package '"@ + package + "' built successfully"@),
    ]
}

fn text_around(a: &str, b: &str, c: &str) -> (r: String)
    ensures
        r@ == a@ + b@ + c@,
{
    crate::text::concat3(a, b, c)
}

/// Set up the temporary build directory: its plan.
pub fn setup_build_dir(build_dir: &str, present: &Vec<bool>) -> (actions: Vec<Action>)
    requires
        present.len() == 4,
    ensures
        action_views(actions@) == setup_actions(build_dir@, present@),
{
    let d = build_dir;
    let files = project_file_names();
    let mut actions: Vec<Action> = Vec::new();
    actions.push(Action::RunIgnoringError(crate::text::concat2("rm -rf ", d)));
    actions.push(Action::Run(text_around("mkdir -p ", d, "/dist/legacy")));
    let ghost before = action_views(actions@);
    assert(before + copy_seq(present@, 0, d@) =~= before);
    assert(crate::text::string_views(files@).len() == files@.len());
    let mut i: usize = 0;
    while i < 4
        invariant
            i <= 4,
            present.len() == 4,
            files.len() == 4,
            crate::text::string_views(files@) == project_files(),
            action_views(actions@) == before + copy_seq(present@, i as int, d@),
        decreases 4 - i,
    {
        let ghost old_views = action_views(actions@);
        assert(copy_seq(present@, i + 1, d@) == copy_seq(present@, i as int, d@) + copy_action(present@, i as int, d@));
        if present[i] {
            let mut v = chars_of("cp ");
            extend_str(&mut v, files[i].as_str());
            extend_str(&mut v, " ");
            extend_str(&mut v, d);
            assert(crate::text::string_views(files@)[i as int] == files@[i as int]@);
            assert(v@ =~= "cp "@ + project_files()[i as int] + " "@ + d@);
            actions.push(Action::RunIgnoringError(string_of(&v)));
            assert(action_views(actions@) =~= old_views.push(
                ActionView::RunIgnoringError("cp "@ + project_files()[i as int] + " "@ + d@),
            ));
        } else {
            assert(copy_action(present@, i as int, d@) =~= Seq::<ActionView>::empty());
        }
        assert(action_views(actions@) =~= before + copy_seq(present@, i + 1, d@));
        i = i + 1;
    }
    actions
}

/// Compile Cython modules: their plan.
pub fn compile_cython(package: &str, build_dir: &str) -> (actions: Vec<Action>)
    ensures
        action_views(actions@) == compile_actions(package@, build_dir@),
{
    let d = build_dir;
    let mut actions: Vec<Action> = Vec::new();
    actions.push(Action::Run(crate::text::concat2("cythonize -a -i ", package)));
    actions.push(Action::Run(text_of("rsbuild clean")));
    actions.push(Action::Run(text_around("find ./", package, " -type f -name '*.c' -delete 2>/dev/null || true")));
    actions.push(Action::Run(text_around("find ", package, " -type f -name '*.so' > /tmp/rsbuild_so_files")));
    actions.push(Action::Run(crate::text::concat2("rsync -av --files-from=/tmp/rsbuild_so_files ./ ", d)));
    actions.push(Action::Run(text_around("find ./", package, " -type f -name '*.so' -delete 2>/dev/null || true")));
    assert(action_views(actions@) =~= compile_actions(package@, build_dir@));
    actions
}

/// Build wheel and clean up: their plan.
pub fn finalize_build(_package: &str, build_dir: &str) -> (actions: Vec<Action>)
    ensures
        action_views(actions@) == finalize_actions(build_dir@),
{
    let d = build_dir;
    let mut actions: Vec<Action> = Vec::new();
    actions.push(Action::Run(text_around("cd ", d, " && rsbuild build wheel")));
    actions.push(Action::Run(text_of("rsbuild clean")));
    actions.push(Action::Run(text_of("rm -f /tmp/rsbuild_so_files")));
    actions.push(Action::RunIgnoringError(text_of("find . -type f -name '*.html' -delete 2>/dev/null")));
    actions.push(Action::Run(text_around("mkdir -p dist && mv ", d, "/dist/*.whl dist/")));
    actions.push(Action::RunIgnoringError(crate::text::concat2("rm -rf ", d)));
    assert(action_views(actions@) =~= finalize_actions(build_dir@));
    actions
}

/// Appends `more` to `actions`.
fn append_actions(actions: &mut Vec<Action>, more: Vec<Action>)
    ensures
        action_views(final(actions)@) == action_views(old(actions)@) + action_views(more@),
{
    let mut more = more;
    let ghost a = old(actions)@;
    let ghost b = more@;
    actions.append(&mut more);
    assert(action_views(actions@) =~= action_views(a) + action_views(b));
}

/// Execute the cython command: its plan once the tools are there and the
/// package is a directory.
pub fn run(package: &str, present: &Vec<bool>) -> (actions: Vec<Action>)
    requires
        present.len() == 4,
    ensures
        action_views(actions@) == cython_actions(package@, present@),
{
    let dir = build_dir(package);
    let mut actions: Vec<Action> = Vec::new();
    actions.push(Action::Status(crate::text::concat2("Compiling Cython package: ", package)));
    assert(action_views(actions@) =~= seq![ActionView::Status("Compiling Cython package: "@ + package@)]);
    append_actions(&mut actions, setup_build_dir(dir.as_str(), present));
    append_actions(&mut actions, compile_cython(package, dir.as_str()));
    append_actions(&mut actions, finalize_build(package, dir.as_str()));
    let ghost mid = action_views(actions@);
    actions.push(Action::Status(text_around("Cython package '", package, "' built successfully")));
    assert(action_views(actions@) =~= mid + seq![
        ActionView::Status("Cython package '"@ + package@ + "' built successfully"@),
    ]);
    assert(action_views(actions@) == cython_actions(package@, present@));
    actions
}

} // verus!
