//! Texts of the files that `python init` writes, with the project name filled in.

use crate::text::{concat2, join, join_strings, string_views, text_of};
use vstd::prelude::*;

verus! {

/// Part 0 of pyproject.toml; the project name stands between consecutive parts.
pub const PYPROJECT_0: &'static str = r#"[project]
name = ""#;

/// The start of part 1 of pyproject.toml: the quote that closes the name, and the version line.
pub const PYPROJECT_VERSION: &'static str = "\"\nversion = \"0.1.0\"\n";

/// Part 1 of pyproject.toml after the version line; the project name stands between consecutive parts.
pub const PYPROJECT_1: &'static str = r#"description = "A Python package"
readme = "README.md"
requires-python = ">=3.10"
license = "MIT"
keywords = []
classifiers = [
    "Development Status :: 3 - Alpha",
    "Intended Audience :: Developers",
    "License :: OSI Approved :: MIT License",
    "Programming Language :: Python :: 3",
    "Programming Language :: Python :: 3.10",
    "Programming Language :: Python :: 3.11",
    "Programming Language :: Python :: 3.12",
]
dependencies = []

[project.optional-dependencies]
dev = [
    "pytest>=8.0",
    "pytest-cov>=4.0",
    "ruff>=0.4",
    "mypy>=1.0",
    "pre-commit>=3.0",
]

[build-system]
requires = ["hatchling"]
build-backend = "hatchling.build"

[tool.hatch.build.targets.wheel]
packages = [""#;

/// Part 2 of pyproject.toml; the project name stands between consecutive parts.
pub const PYPROJECT_2: &'static str = r#""]

[tool.ruff]
line-length = 120
target-version = "py310"

[tool.ruff.lint]
select = ["E", "F", "I", "N", "W", "UP", "B", "C4", "SIM"]
ignore = ["E501"]

[tool.mypy]
python_version = "3.10"
strict = true
warn_return_any = true
warn_unused_configs = true

[tool.pytest.ini_options]
testpaths = [""#;

/// Part 3 of pyproject.toml; the project name stands between consecutive parts.
pub const PYPROJECT_3: &'static str = r#"/tests"]
addopts = "-v --cov="#;

/// Part 4 of pyproject.toml; the project name stands between consecutive parts.
pub const PYPROJECT_4: &'static str = r#" --cov-report=term-missing"

[tool.coverage.run]
source = [""#;

/// Part 5 of pyproject.toml; the project name stands between consecutive parts.
pub const PYPROJECT_5: &'static str = r#""]
omit = [""#;

/// Part 6 of pyproject.toml; the project name stands between consecutive parts.
pub const PYPROJECT_6: &'static str = r#"/tests/*"]
"#;

/// The text pieces of pyproject.toml (hatchling build, ruff, mypy, pytest and coverage settings), between which the project name goes.
pub open spec fn pyproject_toml_pieces() -> Seq<Seq<char>> {
    seq![PYPROJECT_0@, PYPROJECT_VERSION@ + PYPROJECT_1@, PYPROJECT_2@, PYPROJECT_3@, PYPROJECT_4@, PYPROJECT_5@, PYPROJECT_6@]
}

/// The text of pyproject.toml (hatchling build, ruff, mypy, pytest and coverage settings) for `project_name`.
pub fn generate_pyproject_toml(project_name: &str) -> (r: String)
    ensures
        r@ == join(pyproject_toml_pieces(), project_name@),
{
    let pieces: Vec<String> = vec![text_of(PYPROJECT_0), concat2(PYPROJECT_VERSION, PYPROJECT_1), text_of(PYPROJECT_2), text_of(PYPROJECT_3), text_of(PYPROJECT_4), text_of(PYPROJECT_5), text_of(PYPROJECT_6)];
    assert(string_views(pieces@) =~= pyproject_toml_pieces());
    join_strings(&pieces, project_name)
}

/// Part 0 of README.md; the project name stands between consecutive parts.
pub const README_0: &'static str = r#"# "#;

/// Part 1 of README.md; the project name stands between consecutive parts.
pub const README_1: &'static str = r#"

A Python package.

## Installation

```bash
pip install "#;

/// Part 2 of README.md; the project name stands between consecutive parts.
pub const README_2: &'static str = r#"
```

## Development

```bash
# Install dependencies
uv sync --all-extras

# Run tests
task test

# Build wheel
task build

# Lint and format
task lint
```

## License

MIT
"#;

/// The text pieces of README.md, between which the project name goes.
pub open spec fn readme_pieces() -> Seq<Seq<char>> {
    seq![README_0@, README_1@, README_2@]
}

/// The text of README.md for `project_name`.
pub fn generate_readme(project_name: &str) -> (r: String)
    ensures
        r@ == join(readme_pieces(), project_name@),
{
    let pieces: Vec<String> = vec![text_of(README_0), text_of(README_1), text_of(README_2)];
    assert(string_views(pieces@) =~= readme_pieces());
    join_strings(&pieces, project_name)
}

/// Part 0 of tests/test_version.py; the project name stands between consecutive parts.
pub const TEST_VERSION_0: &'static str = r#"""Tests for version information."""

from "#;

/// Part 1 of tests/test_version.py; the project name stands between consecutive parts.
pub const TEST_VERSION_1: &'static str = r#" import __build__, __version__


def test_version_exists() -> None:
    """Test that version is defined."""
    assert __version__ is not None
    assert isinstance(__version__, str)


def test_build_exists() -> None:
    """Test that build is defined."""
    assert __build__ is not None
    assert isinstance(__build__, str)


def test_version_format() -> None:
    """Test that version follows semver format."""
    parts = __version__.split(".")
    assert len(parts) >= 2
    assert all(part.isdigit() for part in parts[:2])
"#;

/// The text pieces of the package's tests/test_version.py, between which the project name goes.
pub open spec fn test_version_pieces() -> Seq<Seq<char>> {
    seq![TEST_VERSION_0@, TEST_VERSION_1@]
}

/// The text of the package's tests/test_version.py for `project_name`.
pub fn generate_test_version(project_name: &str) -> (r: String)
    ensures
        r@ == join(test_version_pieces(), project_name@),
{
    let pieces: Vec<String> = vec![text_of(TEST_VERSION_0), text_of(TEST_VERSION_1)];
    assert(string_views(pieces@) =~= test_version_pieces());
    join_strings(&pieces, project_name)
}

/// Part 0 of Taskfile.yml; the project name stands between consecutive parts.
pub const TASKFILE_0: &'static str = r#"# https://taskfile.dev

version: "3"

vars:
  PACKAGE: "#;

/// Part 1 of Taskfile.yml; the project name stands between consecutive parts.
pub const TASKFILE_1: &'static str = r#"

tasks:
  default:
    desc: Show available tasks
    cmds:
      - task --list

  install:
    desc: Install dependencies
    cmds:
      - uv sync --all-extras

  build:
    desc: Build wheel
    cmds:
      - task: sync-version
      - uv build --wheel

  test:
    desc: Run tests
    cmds:
      - uv run pytest

  test-cov:
    desc: Run tests with coverage
    cmds:
      - uv run pytest --cov={{.PACKAGE}} --cov-report=html

  lint:
    desc: Run linter
    cmds:
      - uv run ruff check {{.PACKAGE}}
      - uv run ruff format --check {{.PACKAGE}}

  format:
    desc: Format code
    cmds:
      - uv run ruff format {{.PACKAGE}}
      - uv run ruff check --fix {{.PACKAGE}}

  typecheck:
    desc: Run type checker
    cmds:
      - uv run mypy {{.PACKAGE}}

  clean:
    desc: Clean build artifacts
    cmds:
      - rm -rf dist build *.egg-info .pytest_cache .mypy_cache .ruff_cache htmlcov .coverage
      - find . -type d -name __pycache__ -exec rm -rf {{}} + 2>/dev/null || true

  sync-version:
    desc: Sync version from pyproject.toml to package
    cmds:
      - |
        VERSION=$(grep '^version' pyproject.toml | head -1 | sed 's/.*"\(.*\)".*/\1/')
        BUILD=$(date -u +"%Y%m%d%H%M%S")
        cat > {{.PACKAGE}}/__init__.py << EOF
        """{{.PACKAGE}} - A Python package."""

        __version__ = "$VERSION"
        __build__ = "$BUILD"

        __all__ = ["__version__", "__build__"]
        EOF
        echo "Synced version $VERSION with build $BUILD"

  docker-build:
    desc: Build Docker image
    cmds:
      - docker compose build

  docker-run:
    desc: Run Docker container
    cmds:
      - docker compose run --rm app

  pre-commit:
    desc: Run pre-commit hooks
    cmds:
      - pre-commit run --all-files

  ci:
    desc: Run all CI checks
    cmds:
      - task: lint
      - task: typecheck
      - task: test
"#;

/// The text pieces of Taskfile.yml with the common development tasks, between which the project name goes.
pub open spec fn taskfile_pieces() -> Seq<Seq<char>> {
    seq![TASKFILE_0@, TASKFILE_1@]
}

/// The text of Taskfile.yml with the common development tasks for `project_name`.
pub fn generate_taskfile(project_name: &str) -> (r: String)
    ensures
        r@ == join(taskfile_pieces(), project_name@),
{
    let pieces: Vec<String> = vec![text_of(TASKFILE_0), text_of(TASKFILE_1)];
    assert(string_views(pieces@) =~= taskfile_pieces());
    join_strings(&pieces, project_name)
}

/// Part 0 of devcontainer.json; the project name stands between consecutive parts.
pub const DEVCONTAINER_0: &'static str = r#"{
    "name": ""#;

/// Part 1 of devcontainer.json; the project name stands between consecutive parts.
pub const DEVCONTAINER_1: &'static str = r#"",
    "build": {
        "dockerfile": "Dockerfile"
    },
    "features": {
        "ghcr.io/devcontainers/features/common-utils:2": {},
        "ghcr.io/devcontainers/features/git:1": {}
    },
    "customizations": {
        "vscode": {
            "extensions": [
                "ms-python.python",
                "ms-python.vscode-pylance",
                "charliermarsh.ruff",
                "tamasfe.even-better-toml",
                "eamodio.gitlens"
            ],
            "settings": {
                "python.defaultInterpreterPath": "/usr/local/bin/python",
                "python.analysis.typeCheckingMode": "basic",
                "[python]": {
                    "editor.defaultFormatter": "charliermarsh.ruff",
                    "editor.formatOnSave": true,
                    "editor.codeActionsOnSave": {
                        "source.fixAll.ruff": "explicit",
                        "source.organizeImports.ruff": "explicit"
                    }
                }
            }
        }
    },
    "postCreateCommand": "uv sync --all-extras && pre-commit install",
    "remoteUser": "vscode"
}
"#;

/// The text pieces of .devcontainer/devcontainer.json, between which the project name goes.
pub open spec fn devcontainer_pieces() -> Seq<Seq<char>> {
    seq![DEVCONTAINER_0@, DEVCONTAINER_1@]
}

/// The text of .devcontainer/devcontainer.json for `project_name`.
pub fn generate_devcontainer(project_name: &str) -> (r: String)
    ensures
        r@ == join(devcontainer_pieces(), project_name@),
{
    let pieces: Vec<String> = vec![text_of(DEVCONTAINER_0), text_of(DEVCONTAINER_1)];
    assert(string_views(pieces@) =~= devcontainer_pieces());
    join_strings(&pieces, project_name)
}

/// Part 0 of Dockerfile; the project name stands between consecutive parts.
pub const DOCKERFILE_0: &'static str = r#"FROM python:3.12-slim

WORKDIR /app

# Install uv
COPY --from=ghcr.io/astral-sh/uv:latest /uv /usr/local/bin/uv

# Copy project files
COPY pyproject.toml uv.lock* ./
COPY "#;

/// Part 1 of Dockerfile; the project name stands between consecutive parts.
pub const DOCKERFILE_1: &'static str = r#"/ ./"#;

/// Part 2 of Dockerfile; the project name stands between consecutive parts.
pub const DOCKERFILE_2: &'static str = r#"/

# Install dependencies
RUN uv sync --frozen --no-dev

# Default command
CMD ["uv", "run", "python", "-c", "import "#;

/// Part 3 of Dockerfile; the project name stands between consecutive parts.
pub const DOCKERFILE_3: &'static str = r#"; print("#;

/// Part 4 of Dockerfile; the project name stands between consecutive parts.
pub const DOCKERFILE_4: &'static str = r#".__version__)"]
"#;

/// The text pieces of the project's Dockerfile, between which the project name goes.
pub open spec fn dockerfile_pieces() -> Seq<Seq<char>> {
    seq![DOCKERFILE_0@, DOCKERFILE_1@, DOCKERFILE_2@, DOCKERFILE_3@, DOCKERFILE_4@]
}

/// The text of the project's Dockerfile for `project_name`.
pub fn generate_dockerfile(project_name: &str) -> (r: String)
    ensures
        r@ == join(dockerfile_pieces(), project_name@),
{
    let pieces: Vec<String> = vec![text_of(DOCKERFILE_0), text_of(DOCKERFILE_1), text_of(DOCKERFILE_2), text_of(DOCKERFILE_3), text_of(DOCKERFILE_4)];
    assert(string_views(pieces@) =~= dockerfile_pieces());
    join_strings(&pieces, project_name)
}

/// The text of docker-compose.yml.
pub const DOCKER_COMPOSE_0: &'static str = r#"services:
  app:
    build: .
    volumes:
      - .:/app
    working_dir: /app

  dev:
    build:
      context: .
      dockerfile: Dockerfile
    volumes:
      - .:/app
    working_dir: /app
    command: ["uv", "run", "python"]
    stdin_open: true
    tty: true
"#;

/// The text of docker-compose.yml; it does not depend on the project name.
pub fn generate_docker_compose(_project_name: &str) -> (r: String)
    ensures
        r@ == DOCKER_COMPOSE_0@,
{
    text_of(DOCKER_COMPOSE_0)
}

/// Part 0 of the `__init__.py` header; project name, version and build stamp stand between the parts.
pub const INIT_PY_0: &'static str = r#"""""#;

/// Part 1 of the `__init__.py` header; project name, version and build stamp stand between the parts.
pub const INIT_PY_1: &'static str = r#" - A Python package."""

__version__ = ""#;

/// Part 2 of the `__init__.py` header; project name, version and build stamp stand between the parts.
pub const INIT_PY_2: &'static str = r#""
__build__ = ""#;

/// Part 3 of the `__init__.py` header; project name, version and build stamp stand between the parts.
pub const INIT_PY_3: &'static str = r#""

__all__ = ["__version__", "__build__"]
"#;

/// The managed header of a package's `__init__.py`: docstring, `__version__`,
/// `__build__` and `__all__`.
pub open spec fn init_py_header_text(project_name: Seq<char>, version: Seq<char>, build: Seq<char>) -> Seq<char> {
    INIT_PY_0@ + project_name + INIT_PY_1@ + version + INIT_PY_2@ + build + INIT_PY_3@
}

/// The managed header of `__init__.py` for a project, version and build stamp.
pub fn init_py_header(project_name: &str, version: &str, build: &str) -> (r: String)
    ensures
        r@ == init_py_header_text(project_name@, version@, build@),
{
    let mut out = crate::text::chars_of(INIT_PY_0);
    crate::text::extend_str(&mut out, project_name);
    crate::text::extend_str(&mut out, INIT_PY_1);
    crate::text::extend_str(&mut out, version);
    crate::text::extend_str(&mut out, INIT_PY_2);
    crate::text::extend_str(&mut out, build);
    crate::text::extend_str(&mut out, INIT_PY_3);
    crate::text::string_of(&out)
}

/// Pre-commit configuration (`.pre-commit-config.yaml`): whitespace, YAML/TOML checks, ruff and mypy hooks.
pub const PRECOMMIT_CONFIG: &'static str = r#"repos:
  - repo: https://github.com/pre-commit/pre-commit-hooks
    rev: v5.0.0
    hooks:
      - id: trailing-whitespace
      - id: end-of-file-fixer
      - id: check-yaml
      - id: check-toml
      - id: check-added-large-files
      - id: check-merge-conflict

  - repo: https://github.com/astral-sh/ruff-pre-commit
    rev: v0.8.6
    hooks:
      - id: ruff
        args: [--fix]
      - id: ruff-format

  - repo: https://github.com/pre-commit/mirrors-mypy
    rev: v1.14.1
    hooks:
      - id: mypy
        additional_dependencies: []
"#;

/// `.gitignore` for Python projects.
pub const GITIGNORE: &'static str = r#"# Python
__pycache__/
*.py[cod]
*$py.class
*.so
.Python
build/
develop-eggs/
dist/
downloads/
eggs/
.eggs/
lib/
lib64/
parts/
sdist/
var/
wheels/
*.egg-info/
.installed.cfg
*.egg

# Virtual environments
.venv/
venv/
ENV/

# IDE
.idea/
.vscode/
*.swp
*.swo
*~

# Testing
.tox/
.nox/
.coverage
.coverage.*
htmlcov/
.pytest_cache/
.hypothesis/

# Type checking
.mypy_cache/
.dmypy.json
dmypy.json

# Ruff
.ruff_cache/

# Build
*.manifest
*.spec

# Jupyter
.ipynb_checkpoints/

# OS
.DS_Store
Thumbs.db

# Project specific
*.log
.env
.env.*
"#;

/// Dockerfile of the development container (Python 3.12, uv, task).
pub const DEVCONTAINER_DOCKERFILE: &'static str = r#"FROM mcr.microsoft.com/devcontainers/python:3.12

# Install uv
COPY --from=ghcr.io/astral-sh/uv:latest /uv /usr/local/bin/uv

# Install task
RUN sh -c "$(curl --location https://taskfile.dev/install.sh)" -- -d -b /usr/local/bin

# Set up uv environment
ENV UV_LINK_MODE=copy
"#;

} // verus!
