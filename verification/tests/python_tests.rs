use rsbuild::commands::python::{
    answer_agrees, chrono_lite_now, init_step_stops, sync_outcome, generate_init_py, generate_init_py_header, needs_confirmation, write_step, WriteStep,
    extract_toml_value, format_build_timestamp, get_project_name, init_project_plan, path_join_exec,
    sanitize_package_name, sync_version_plan, updated_init_content, ProjectStep,
};
use rsbuild::commands::templates::{
    generate_devcontainer, generate_docker_compose, generate_dockerfile, generate_pyproject_toml,
    generate_readme, generate_taskfile, generate_test_version, init_py_header, DEVCONTAINER_DOCKERFILE,
    GITIGNORE, PRECOMMIT_CONFIG,
};
use rsbuild::error::RsbuildError;

// The expected texts below are built with `format!`, independently of the
// library's concatenation of template pieces.

fn expected_init_py_header(project_name: &str, version: &str, build: &str) -> String {

    format!(
        r#""""{project_name} - A Python package."""

__version__ = "{version}"
__build__ = "{build}"

__all__ = ["__version__", "__build__"]
"#,
        project_name = project_name,
        version = version,
        build = build
    )
}

fn expected_pyproject_toml(project_name: &str) -> String {
    format!(
        r#"[project]
name = "{project_name}"
version = "0.1.0"
description = "A Python package"
readme = "README.md"
requires-python = ">=3.10"
license = "MIT"
keywords = []
classifiers = [
    "Development Status :: 3 - Alpha",
    "Intended Audience :: Developers",
    "License :: OSI Approved :: MIT License",
    "Programming Language :: Python :: 3",
    "Programming Language :: Python :: 3.10",
    "Programming Language :: Python :: 3.11",
    "Programming Language :: Python :: 3.12",
]
dependencies = []

[project.optional-dependencies]
dev = [
    "pytest>=8.0",
    "pytest-cov>=4.0",
    "ruff>=0.4",
    "mypy>=1.0",
    "pre-commit>=3.0",
]

[build-system]
requires = ["hatchling"]
build-backend = "hatchling.build"

[tool.hatch.build.targets.wheel]
packages = ["{project_name}"]

[tool.ruff]
line-length = 120
target-version = "py310"

[tool.ruff.lint]
select = ["E", "F", "I", "N", "W", "UP", "B", "C4", "SIM"]
ignore = ["E501"]

[tool.mypy]
python_version = "3.10"
strict = true
warn_return_any = true
warn_unused_configs = true

[tool.pytest.ini_options]
testpaths = ["{project_name}/tests"]
addopts = "-v --cov={project_name} --cov-report=term-missing"

[tool.coverage.run]
source = ["{project_name}"]
omit = ["{project_name}/tests/*"]
"#,
        project_name = project_name
    )
}

fn expected_readme(project_name: &str) -> String {
    format!(
        r#"# {project_name}

A Python package.

## Installation

```bash
pip install {project_name}
```

## Development

```bash
# Install dependencies
uv sync --all-extras

# Run tests
task test

# Build wheel
task build

# Lint and format
task lint
```

## License

MIT
"#,
        project_name = project_name
    )
}



fn expected_test_version(project_name: &str) -> String {
    format!(
        r#"""Tests for version information."""

from {project_name} import __build__, __version__


def test_version_exists() -> None:
    """Test that version is defined."""
    assert __version__ is not None
    assert isinstance(__version__, str)


def test_build_exists() -> None:
    """Test that build is defined."""
    assert __build__ is not None
    assert isinstance(__build__, str)


def test_version_format() -> None:
    """Test that version follows semver format."""
    parts = __version__.split(".")
    assert len(parts) >= 2
    assert all(part.isdigit() for part in parts[:2])
"#,
        project_name = project_name
    )
}

fn expected_taskfile(project_name: &str) -> String {
    format!(
        r##"# https://taskfile.dev

version: "3"

vars:
  PACKAGE: {project_name}

tasks:
  default:
    desc: Show available tasks
    cmds:
      - task --list

  install:
    desc: Install dependencies
    cmds:
      - uv sync --all-extras

  build:
    desc: Build wheel
    cmds:
      - task: sync-version
      - uv build --wheel

  test:
    desc: Run tests
    cmds:
      - uv run pytest

  test-cov:
    desc: Run tests with coverage
    cmds:
      - uv run pytest --cov={{{{.PACKAGE}}}} --cov-report=html

  lint:
    desc: Run linter
    cmds:
      - uv run ruff check {{{{.PACKAGE}}}}
      - uv run ruff format --check {{{{.PACKAGE}}}}

  format:
    desc: Format code
    cmds:
      - uv run ruff format {{{{.PACKAGE}}}}
      - uv run ruff check --fix {{{{.PACKAGE}}}}

  typecheck:
    desc: Run type checker
    cmds:
      - uv run mypy {{{{.PACKAGE}}}}

  clean:
    desc: Clean build artifacts
    cmds:
      - rm -rf dist build *.egg-info .pytest_cache .mypy_cache .ruff_cache htmlcov .coverage
      - find . -type d -name __pycache__ -exec rm -rf {{{{}}}} + 2>/dev/null || true

  sync-version:
    desc: Sync version from pyproject.toml to package
    cmds:
      - |
        VERSION=$(grep '^version' pyproject.toml | head -1 | sed 's/.*"\(.*\)".*/\1/')
        BUILD=$(date -u +"%Y%m%d%H%M%S")
        cat > {{{{.PACKAGE}}}}/__init__.py << EOF
        """{{{{.PACKAGE}}}} - A Python package."""

        __version__ = "$VERSION"
        __build__ = "$BUILD"

        __all__ = ["__version__", "__build__"]
        EOF
        echo "Synced version $VERSION with build $BUILD"

  docker-build:
    desc: Build Docker image
    cmds:
      - docker compose build

  docker-run:
    desc: Run Docker container
    cmds:
      - docker compose run --rm app

  pre-commit:
    desc: Run pre-commit hooks
    cmds:
      - pre-commit run --all-files

  ci:
    desc: Run all CI checks
    cmds:
      - task: lint
      - task: typecheck
      - task: test
"##,
        project_name = project_name
    )
}

fn expected_devcontainer(project_name: &str) -> String {
    format!(
        r#"{{
    "name": "{project_name}",
    "build": {{
        "dockerfile": "Dockerfile"
    }},
    "features": {{
        "ghcr.io/devcontainers/features/common-utils:2": {{}},
        "ghcr.io/devcontainers/features/git:1": {{}}
    }},
    "customizations": {{
        "vscode": {{
            "extensions": [
                "ms-python.python",
                "ms-python.vscode-pylance",
                "charliermarsh.ruff",
                "tamasfe.even-better-toml",
                "eamodio.gitlens"
            ],
            "settings": {{
                "python.defaultInterpreterPath": "/usr/local/bin/python",
                "python.analysis.typeCheckingMode": "basic",
                "[python]": {{
                    "editor.defaultFormatter": "charliermarsh.ruff",
                    "editor.formatOnSave": true,
                    "editor.codeActionsOnSave": {{
                        "source.fixAll.ruff": "explicit",
                        "source.organizeImports.ruff": "explicit"
                    }}
                }}
            }}
        }}
    }},
    "postCreateCommand": "uv sync --all-extras && pre-commit install",
    "remoteUser": "vscode"
}}
"#,
        project_name = project_name
    )
}

fn expected_dockerfile(project_name: &str) -> String {
    format!(
        r#"FROM python:3.12-slim

WORKDIR /app

# Install uv
COPY --from=ghcr.io/astral-sh/uv:latest /uv /usr/local/bin/uv

# Copy project files
COPY pyproject.toml uv.lock* ./
COPY {project_name}/ ./{project_name}/

# Install dependencies
RUN uv sync --frozen --no-dev

# Default command
CMD ["uv", "run", "python", "-c", "import {project_name}; print({project_name}.__version__)"]
"#,
        project_name = project_name
    )
}

fn expected_docker_compose(_project_name: &str) -> String {
    format!(
        r#"services:
  app:
    build: .
    volumes:
      - .:/app
    working_dir: /app

  dev:
    build:
      context: .
      dockerfile: Dockerfile
    volumes:
      - .:/app
    working_dir: /app
    command: ["uv", "run", "python"]
    stdin_open: true
    tty: true
"#
    )
}

const EXPECTED_PRECOMMIT_CONFIG: &str = r#"repos:
  - repo: https://github.com/pre-commit/pre-commit-hooks
    rev: v5.0.0
    hooks:
      - id: trailing-whitespace
      - id: end-of-file-fixer
      - id: check-yaml
      - id: check-toml
      - id: check-added-large-files
      - id: check-merge-conflict

  - repo: https://github.com/astral-sh/ruff-pre-commit
    rev: v0.8.6
    hooks:
      - id: ruff
        args: [--fix]
      - id: ruff-format

  - repo: https://github.com/pre-commit/mirrors-mypy
    rev: v1.14.1
    hooks:
      - id: mypy
        additional_dependencies: []
"#;

const EXPECTED_GITIGNORE: &str = r#"# Python
__pycache__/
*.py[cod]
*$py.class
*.so
.Python
build/
develop-eggs/
dist/
downloads/
eggs/
.eggs/
lib/
lib64/
parts/
sdist/
var/
wheels/
*.egg-info/
.installed.cfg
*.egg

# Virtual environments
.venv/
venv/
ENV/

# IDE
.idea/
.vscode/
*.swp
*.swo
*~

# Testing
.tox/
.nox/
.coverage
.coverage.*
htmlcov/
.pytest_cache/
.hypothesis/

# Type checking
.mypy_cache/
.dmypy.json
dmypy.json

# Ruff
.ruff_cache/

# Build
*.manifest
*.spec

# Jupyter
.ipynb_checkpoints/

# OS
.DS_Store
Thumbs.db

# Project specific
*.log
.env
.env.*
"#;

const EXPECTED_DEVCONTAINER_DOCKERFILE: &str = r#"FROM mcr.microsoft.com/devcontainers/python:3.12

# Install uv
COPY --from=ghcr.io/astral-sh/uv:latest /uv /usr/local/bin/uv

# Install task
RUN sh -c "$(curl --location https://taskfile.dev/install.sh)" -- -d -b /usr/local/bin

# Set up uv environment
ENV UV_LINK_MODE=copy
"#;


#[test]
fn templates_match_their_formats() {
    for name in ["demo", "my_pkg", ""] {
        assert_eq!(generate_pyproject_toml(name), expected_pyproject_toml(name));
        assert_eq!(generate_readme(name), expected_readme(name));
        assert_eq!(generate_test_version(name), expected_test_version(name));
        assert_eq!(generate_taskfile(name), expected_taskfile(name));
        assert_eq!(generate_devcontainer(name), expected_devcontainer(name));
        assert_eq!(generate_dockerfile(name), expected_dockerfile(name));
        assert_eq!(generate_docker_compose(name), expected_docker_compose(name));
    }
    assert_eq!(PRECOMMIT_CONFIG, EXPECTED_PRECOMMIT_CONFIG);
    assert_eq!(GITIGNORE, EXPECTED_GITIGNORE);
    assert_eq!(DEVCONTAINER_DOCKERFILE, EXPECTED_DEVCONTAINER_DOCKERFILE);
}

#[test]
fn init_header_matches_its_format() {
    assert_eq!(init_py_header("demo", "1.2.3", "20240101120000"), expected_init_py_header("demo", "1.2.3", "20240101120000"));
    assert!(init_py_header("demo", "1.2.3", "B").starts_with("\"\"\"demo - A Python package.\"\"\"\n\n__version__ = \"1.2.3\"\n__build__ = \"B\"\n"));
}

#[test]
fn taskfile_keeps_template_braces() {
    assert!(generate_taskfile("pkg").contains("PACKAGE: pkg"));
    assert!(generate_taskfile("pkg").contains("uv run mypy {{.PACKAGE}}"));
}

#[test]
fn package_names_are_sanitized() {
    assert_eq!(sanitize_package_name("My-Project Name"), "my_project_name");
    assert_eq!(sanitize_package_name("hello.world!"), "helloworld");
    assert_eq!(sanitize_package_name("Already_ok_123"), "already_ok_123");
    assert_eq!(sanitize_package_name(""), "");
    assert_eq!(sanitize_package_name("Ünïcode-Ok"), "ünïcode_ok");
}

#[test]
fn project_name_sources() {
    assert_eq!(get_project_name(Some("Cool-App".to_string()), Some("ignored".to_string())).unwrap(), "cool_app");
    assert_eq!(get_project_name(None, Some("dir name".to_string())).unwrap(), "dir_name");
    match get_project_name(None, None) {
        Err(RsbuildError::ExecutionFailed(m)) => assert_eq!(m, "Cannot determine project name"),
        _ => panic!("expected ExecutionFailed"),
    }
}

#[test]
fn toml_values() {
    let content = "[project]\nname = \"demo-app\"\nversion = \"1.2.3\"\n";
    assert_eq!(extract_toml_value(content, "version"), Some("1.2.3".to_string()));
    assert_eq!(extract_toml_value(content, "name"), Some("demo-app".to_string()));
    assert_eq!(extract_toml_value(content, "license"), None);
    assert_eq!(extract_toml_value("  version='0.9'  \r\n", "version"), Some("0.9".to_string()));
    assert_eq!(extract_toml_value("version=\"a=b\"", "version"), Some("a".to_string()));
    assert_eq!(extract_toml_value("version 1\nversion = \"2\"", "version"), Some("2".to_string()));
    assert_eq!(extract_toml_value("versions = \"1\"\nversion_x = 3", "version"), None);
    assert_eq!(extract_toml_value("version = \" '7' \"", "version"), Some(" '7' ".to_string()));
    assert_eq!(extract_toml_value("", "version"), None);
}

#[test]
fn build_stamps() {
    assert_eq!(format_build_timestamp(0), "19700101000000");
    assert_eq!(format_build_timestamp(86399), "19700101235959");
    // 400 days and 3661 seconds: year 1971, day 35 of it, 01:01:01
    assert_eq!(format_build_timestamp(400 * 86400 + 3661), "19710206010101");
    // day 364 of a year: month 13 is capped at 12
    assert_eq!(format_build_timestamp(364 * 86400), "19701205000000");
    assert_eq!(format_build_timestamp(1_700_000_000).len(), 14);
}

#[test]
fn init_content_keeps_custom_code() {
    let header = "HEADER\n";
    let current = "\"\"\"old\"\"\"\n__all__ = [\"x\"]\n\ndef f():\n    pass\n";
    assert_eq!(updated_init_content(current, header), "HEADER\n\n\ndef f():\n    pass\n");
    assert_eq!(updated_init_content("__all__ = []\n   \n", header), "HEADER\n");
    assert_eq!(updated_init_content("__all__ = []", header), "HEADER\n");
    assert_eq!(updated_init_content("no marker\nhere\n", header), "HEADER\n");
}

#[test]
fn paths_are_joined() {
    assert_eq!(path_join_exec("pkg", "__init__.py"), "pkg/__init__.py");
    assert_eq!(path_join_exec("", "__init__.py"), "__init__.py");
    assert_eq!(path_join_exec("dir/", "x"), "dir/x");
}

#[test]
fn sync_plan_reads_pyproject() {
    let plan = sync_version_plan("[project]\nname = \"My-Lib\"\nversion = \"2.0.1\"\n").unwrap();
    assert_eq!(plan.package, "my_lib");
    assert_eq!(plan.version, "2.0.1");
    assert_eq!(plan.init_path, "my_lib/__init__.py");
    match sync_version_plan("name = \"x\"\n") {
        Err(RsbuildError::ExecutionFailed(m)) => assert_eq!(m, "Cannot find version in pyproject.toml"),
        _ => panic!("expected the version error"),
    }
    match sync_version_plan("version = \"1\"\n") {
        Err(RsbuildError::ExecutionFailed(m)) => assert_eq!(m, "Cannot find name in pyproject.toml"),
        _ => panic!("expected the name error"),
    }
}

fn describe(steps: &[ProjectStep]) -> Vec<String> {
    steps
        .iter()
        .map(|s| match s {
            ProjectStep::MakeDir(d) => format!("dir {}", d),
            ProjectStep::WriteFile { path, .. } => format!("file {}", path),
        })
        .collect()
}

#[test]
fn init_plan_lists_files_in_order() {
    let steps = init_project_plan("demo", false, false, "B", false);
    assert_eq!(
        describe(&steps),
        vec![
            "file pyproject.toml", "file README.md", "file .pre-commit-config.yaml", "file .gitignore",
            "file Taskfile.yml", "dir demo", "file demo/__init__.py", "file demo/py.typed", "dir demo/tests",
            "file demo/tests/__init__.py", "file demo/tests/test_version.py", "dir .devcontainer",
            "file .devcontainer/devcontainer.json", "file .devcontainer/Dockerfile", "file Dockerfile",
            "file docker-compose.yml",
        ]
    );
    match &steps[6] {
        ProjectStep::WriteFile { content, .. } => assert_eq!(content, &expected_init_py_header("demo", "0.1.0", "B")),
        _ => panic!("expected the package init file"),
    }
    let steps = init_project_plan("demo", true, true, "B", false);
    assert_eq!(steps.len(), 10);
}

#[test]
fn dry_run_plan_creates_no_directory() {
    let steps = init_project_plan("demo", false, false, "B", true);
    assert_eq!(
        describe(&steps),
        vec![
            "file pyproject.toml", "file README.md", "file .pre-commit-config.yaml", "file .gitignore",
            "file Taskfile.yml", "file demo/__init__.py", "file demo/py.typed",
            "file demo/tests/__init__.py", "file demo/tests/test_version.py",
            "file .devcontainer/devcontainer.json", "file .devcontainer/Dockerfile", "file Dockerfile",
            "file docker-compose.yml",
        ]
    );
}

#[test]
fn new_package_init_is_stamped_now() {
    let stamp = chrono_lite_now();
    assert_eq!(stamp.len(), 14);
    assert!(stamp.chars().all(|c| c.is_ascii_digit()));
    let init = generate_init_py("demo");
    assert!(init.starts_with("\"\"\"demo - A Python package.\"\"\"\n\n__version__ = \"0.1.0\"\n__build__ = \""));
    assert!(init.ends_with("\"\n\n__all__ = [\"__version__\", \"__build__\"]\n"));
    let header = generate_init_py_header("lib", "3.1");
    assert!(header.contains("__version__ = \"3.1\""));
}

#[test]
fn writes_need_confirmation_and_respect_dry_run() {
    assert!(needs_confirmation(true, false));
    assert!(!needs_confirmation(true, true));
    assert!(!needs_confirmation(false, false));
    assert_eq!(write_step(false, false), WriteStep::Skip);
    assert_eq!(write_step(false, true), WriteStep::Skip);
    assert_eq!(write_step(true, true), WriteStep::Preview);
    assert_eq!(write_step(true, false), WriteStep::Write);
}

#[test]
fn new_pyproject_reads_back_name_and_version() {
    for raw in ["My-Project", "demo", "a b c", "Ünïcode-Pkg", ""] {
        let name = sanitize_package_name(raw);
        let toml = generate_pyproject_toml(&name);
        assert_eq!(extract_toml_value(&toml, "name"), Some(name.clone()));
        assert_eq!(extract_toml_value(&toml, "version"), Some("0.1.0".to_string()));
    }
}

#[test]
fn overwrite_answers() {
    for yes in ["y", "Y", "yes", "YES", " Yes\n", "\ty\r\n"] {
        assert!(answer_agrees(yes), "{yes:?}");
    }
    for no in ["", "\n", "n", "no", "ye", "yess", "y es", "sure"] {
        assert!(!answer_agrees(no), "{no:?}");
    }
}

#[test]
fn sanitizing_twice_is_sanitizing_once() {
    for raw in ["My-Project", "a b-c_d", "Hello, World!", "ABC123", "__x__", "", "Ünïcode Pkg"] {
        let once = sanitize_package_name(raw);
        assert_eq!(sanitize_package_name(&once), once);
    }
    assert_eq!(sanitize_package_name("my_pkg_2"), "my_pkg_2");
}

#[test]
fn init_stops_only_at_a_failed_write() {
    let dir = ProjectStep::MakeDir("pkg".to_string());
    let file = ProjectStep::WriteFile { path: "pkg/__init__.py".to_string(), content: String::new() };
    assert!(!init_step_stops(&dir, false));
    assert!(!init_step_stops(&dir, true));
    assert!(init_step_stops(&file, false));
    assert!(!init_step_stops(&file, true));
}

#[test]
fn sync_version_reports_or_writes() {
    let preview = sync_outcome(true, "demo/__init__.py", "1.2.3");
    assert!(!preview.write);
    assert_eq!(preview.message, "Would update demo/__init__.py to version 1.2.3");
    let update = sync_outcome(false, "demo/__init__.py", "1.2.3");
    assert!(update.write);
    assert_eq!(update.message, "Updated demo/__init__.py to version 1.2.3");
}

#[test]
fn ascii_names_are_sanitized_character_by_character() {
    assert_eq!(sanitize_package_name("My-Project 2_x!"), "my_project_2_x");
    assert_eq!(sanitize_package_name("ABC=def\"g'h\ni"), "abcdefghi");
    assert_eq!(sanitize_package_name("--"), "__");
    assert_eq!(sanitize_package_name("Ünïcode"), "ünïcode");
}

#[test]
fn init_header_reads_back_its_version() {
    for (name, version) in [("demo", "1.2.3"), ("my_pkg", "0.1.0"), ("x", "")] {
        let header = init_py_header(name, version, "20240101000000");
        assert_eq!(header.lines().nth(2), Some(format!("__version__ = \"{}\"", version).as_str()));
        assert_eq!(extract_toml_value(&header, "__version__"), Some(version.to_string()));
    }
}
