use rsbuild::cli::CargoBuildMode;
use rsbuild::commands::build_command::{build_docker, build_wheel, cargo_build, docker_failure_warning, wheel_failure_warning};
use rsbuild::commands::doctor::{all_found, optional_tools, project_file_groups, required_tools};
use rsbuild::commands::pull::{pull_failure_warning, pull_service, require_docker};
use rsbuild::commands::run::{external_command, run};
use rsbuild::commands::{clean, cython, default_service_names, Action};
use rsbuild::progress::{finish_text, Finish};

fn show(actions: &[Action]) -> Vec<String> {
    actions
        .iter()
        .map(|a| match a {
            Action::RequireTool(t) => format!("tool {}", t),
            Action::Status(m) => format!("status {}", m),
            Action::Run(c) => format!("run {}", c),
            Action::RunIgnoringError(c) => format!("try {}", c),
        })
        .collect()
}

#[test]
fn clean_plan() {
    let base = vec![
        "status Cleaning build artifacts",
        "try rm -rf build",
        "try find . -type d -name '*egg-info*' -exec rm -rf {} + 2>/dev/null",
        "try find . -type d -name '__pycache__' -exec rm -rf {} + 2>/dev/null",
        "try find . -type d -name '.ipynb_checkpoints' -exec rm -rf {} + 2>/dev/null",
        "try find . -type f -name '*.pyc' -delete 2>/dev/null",
    ];
    let mut expected = base.clone();
    expected.push("status Clean completed");
    assert_eq!(show(&clean::run(false)), expected);
    let mut expected = base;
    expected.push("status Cleaning Rust target directory");
    expected.push("try rm -rf target");
    expected.push("status Clean completed");
    assert_eq!(show(&clean::run(true)), expected);
}

#[test]
fn pull_plan() {
    assert_eq!(show(&pull_service("web")), vec!["status Pulling Docker image: web", "run docker compose pull web"]);
    assert_eq!(show(&[require_docker()]), vec!["tool docker"]);
    assert_eq!(pull_failure_warning("web", "oops"), "Failed to pull 'web': oops");
    assert_eq!(default_service_names(), vec!["vanilla", "sandbox"]);
}

#[test]
fn run_plan() {
    assert_eq!(
        show(&run("app", &Vec::new())),
        vec!["tool docker", "status Running Docker service: app", "run docker compose run --rm app"]
    );
    let args = vec!["--env".to_string(), "FOO=bar".to_string()];
    assert_eq!(show(&run("app", &args))[2], "run docker compose run --rm app --env FOO=bar");
    assert_eq!(external_command(&vec!["ls".to_string(), "-la".to_string()]), "ls -la");
}

#[test]
fn cargo_plan() {
    assert_eq!(
        show(&cargo_build(CargoBuildMode::Release, "Linux", "x86_64")),
        vec![
            "status Building Rust binary (Release mode)",
            "run cargo build --release --target-dir target/Linux/x86_64",
            "status Binary built in target/Linux/x86_64",
        ]
    );
    assert_eq!(show(&cargo_build(CargoBuildMode::Debug, "Darwin", "arm64"))[1], "run cargo build --target-dir target/Darwin/arm64");
}

#[test]
fn wheel_and_docker_plans() {
    assert_eq!(
        show(&build_wheel()),
        vec![
            "tool uv",
            "status Building Python wheel",
            "try mkdir -p dist/legacy",
            "try mv dist/*.whl dist/legacy/ 2>/dev/null",
            "run uv build --wheel",
            "run rsbuild clean",
            "status Wheel built in dist/",
        ]
    );
    assert_eq!(
        show(&build_docker("vanilla", true)),
        vec![
            "tool docker",
            "status Building Docker service: vanilla",
            "run docker compose build --no-cache vanilla",
            "status Docker service 'vanilla' built successfully",
        ]
    );
    assert_eq!(show(&build_docker("s", false))[2], "run docker compose build s");
    assert_eq!(wheel_failure_warning("e"), "Wheel build failed: e");
    assert_eq!(docker_failure_warning("s", "e"), "Docker build 's' failed: e");
}

#[test]
fn cython_plan() {
    assert_eq!(cython::build_dir("pkg"), "/tmp/rsbuild-cython-pkg");
    assert_eq!(show(&cython::tool_checks()), vec!["tool cythonize", "tool rsync", "tool pip"]);
    let plan = show(&cython::run("pkg", &vec![true, false, false, true]));
    assert_eq!(
        plan,
        vec![
            "status Compiling Cython package: pkg",
            "try rm -rf /tmp/rsbuild-cython-pkg",
            "run mkdir -p /tmp/rsbuild-cython-pkg/dist/legacy",
            "try cp requirements.txt /tmp/rsbuild-cython-pkg",
            "try cp pyproject.toml /tmp/rsbuild-cython-pkg",
            "run cythonize -a -i pkg",
            "run rsbuild clean",
            "run find ./pkg -type f -name '*.c' -delete 2>/dev/null || true",
            "run find pkg -type f -name '*.so' > /tmp/rsbuild_so_files",
            "run rsync -av --files-from=/tmp/rsbuild_so_files ./ /tmp/rsbuild-cython-pkg",
            "run find ./pkg -type f -name '*.so' -delete 2>/dev/null || true",
            "run cd /tmp/rsbuild-cython-pkg && rsbuild build wheel",
            "run rsbuild clean",
            "run rm -f /tmp/rsbuild_so_files",
            "try find . -type f -name '*.html' -delete 2>/dev/null",
            "run mkdir -p dist && mv /tmp/rsbuild-cython-pkg/dist/*.whl dist/",
            "try rm -rf /tmp/rsbuild-cython-pkg",
            "status Cython package 'pkg' built successfully",
        ]
    );
    assert_eq!(cython::project_file_names(), vec!["requirements.txt", "setup.cfg", "setup.py", "pyproject.toml"]);
}

#[test]
fn doctor_lists() {
    let req: Vec<(String, String)> = required_tools().into_iter().map(|e| (e.tool, e.purpose)).collect();
    assert_eq!(req, vec![("cargo".to_string(), "Rust builds".to_string()), ("docker".to_string(), "Docker builds".to_string())]);
    assert_eq!(optional_tools().len(), 7);
    assert_eq!(optional_tools()[6].tool, "pre-commit");
    let groups = project_file_groups();
    assert_eq!(groups.len(), 5);
    assert_eq!(groups[3].label, "Taskfile.yml");
    assert_eq!(groups[3].paths, vec!["Taskfile.yml", "Taskfile.yaml", "taskfile.yml"]);
    assert!(all_found(&vec![true, true]));
    assert!(!all_found(&vec![true, false]));
    assert!(all_found(&Vec::new()));
}

#[test]
fn progress_finish_texts() {
    assert_eq!(finish_text(Finish::Success, "done"), "\u{2714} done");
    assert_eq!(finish_text(Finish::Error, "x"), "\u{2718} x");
    assert_eq!(finish_text(Finish::Warning, "w"), "\u{26A0} w");
}

#[test]
fn which_failures_stop_a_plan() {
    let stops = |a: &Action, ok: bool| rsbuild::commands::stops_after(a, ok);
    assert!(stops(&Action::Run("x".to_string()), false));
    assert!(stops(&Action::RequireTool("x".to_string()), false));
    assert!(!stops(&Action::RunIgnoringError("x".to_string()), false));
    assert!(!stops(&Action::Status("x".to_string()), false));
    assert!(!stops(&Action::Run("x".to_string()), true));
}

#[test]
fn cython_needs_the_package_directory() {
    assert!(cython::package_check("mypkg", true).is_ok());
    match cython::package_check("mypkg", false) {
        Err(rsbuild::error::RsbuildError::PathNotFound { path }) => assert_eq!(path, "mypkg"),
        other => panic!("unexpected: {:?}", other),
    }
}

#[test]
fn batches_attempt_every_item() {
    let calls = std::cell::RefCell::new(Vec::new());
    let reports = rsbuild::commands::attempt_each(4, &|i: usize| {
        calls.borrow_mut().push(i);
        if i % 2 == 0 { Some(format!("item {} failed", i)) } else { None }
    });
    assert_eq!(*calls.borrow(), vec![0, 1, 2, 3]);
    assert_eq!(
        reports,
        vec![Some("item 0 failed".to_string()), None, Some("item 2 failed".to_string()), None]
    );
    assert!(rsbuild::commands::attempt_each(0, &|_i: usize| None).is_empty());
}
