//! Command-line model: the flags and commands that rsbuild accepts, and the
//! execution context derived from them.

use indicatif::MultiProgress;
use std::sync::Arc;
use vstd::prelude::*;

verus! {

/// Lets a shell kind (`clap_complete::Shell`) stand in `Commands::Completions`.
#[verifier::external_type_specification]
#[verifier::external_body]
pub struct ExShell(clap_complete::Shell);

/// Lets the progress-bar manager (`indicatif::MultiProgress`) stand in `ExecContext`.
#[verifier::external_type_specification]
#[verifier::external_body]
pub struct ExMultiProgress(MultiProgress);

/// `indicatif::MultiProgress::new`: a manager drawing to standard error.
/// Nothing is claimed of the value.
#[verifier::external_body]
fn new_multi_progress() -> MultiProgress {
    MultiProgress::new()
}

/// Output format for command results.
#[derive(Clone, Copy, Debug, Default, PartialEq, Eq, Structural)]
pub enum OutputFormat {
    #[default]
    Human,
    Json,
}

/// The global flags and the command of one invocation.
pub struct Cli {
    /// Increase output verbosity
    pub verbose: bool,
    /// Suppress non-essential output
    pub quiet: bool,
    /// Preview commands without executing them
    pub dry_run: bool,
    /// Skip confirmation prompts (answer yes to all)
    pub yes: bool,
    /// Output results in JSON format (implies --quiet)
    pub json: bool,
    /// Number of parallel jobs to run
    pub jobs: usize,
    pub command: Commands,
}

/// Available commands.
pub enum Commands {
    /// Build artifacts (wheel, docker, cargo)
    Build { target: BuildTarget },
    /// Pull Docker images
    Pull { target: PullTarget },
    /// Run Docker Compose services
    Run { service: String, args: Vec<String> },
    /// Clean build artifacts and caches
    Clean { all: bool },
    /// Compile Cython modules and package into wheel
    Cython { package: String },
    /// Python project management
    Python { action: PythonAction },
    /// Run glances system monitor
    Glances,
    /// Generate shell completion scripts
    Completions { shell: clap_complete::Shell },
    /// Check if required tools are installed
    Doctor,
    /// Watch files and rebuild on changes
    Watch { target: WatchTarget, debounce: u64, path: Vec<String> },
    /// Execute arbitrary shell command
    External(Vec<String>),
}

/// Build targets for the build command.
#[derive(Clone, Debug)]
pub enum BuildTarget {
    /// Build Python wheel
    Wheel,
    /// Build all configured targets
    All,
    /// Build Rust binary with cargo
    Cargo { mode: CargoBuildMode },
    /// Build a Docker Compose service
    Docker { service: String, no_cache: bool },
}

/// Cargo build modes.
#[derive(Clone, Copy, Debug, PartialEq, Eq, Structural)]
pub enum CargoBuildMode {
    /// Debug build (faster compilation, slower runtime)
    Debug,
    /// Release build (optimized, slower compilation)
    Release,
}

/// Pull targets for the pull command.
#[derive(Clone, Debug)]
pub enum PullTarget {
    /// Pull all configured images
    All,
    /// Pull a specific Docker Compose service image
    Service { name: String },
}

/// Watch targets for the watch command.
#[derive(Clone, Copy, Debug, PartialEq, Eq, Structural)]
pub enum WatchTarget {
    /// Watch and rebuild Python wheel
    Wheel,
    /// Watch and rebuild Docker service
    Docker,
    /// Watch and recompile Cython modules
    Cython,
    /// Watch and rebuild Rust binary
    Cargo,
}

/// Python project actions.
#[derive(Clone, Debug)]
pub enum PythonAction {
    /// Initialize a new Python project
    Init { name: Option<String>, no_tests: bool, no_devcontainer: bool },
    /// Sync version from pyproject.toml to package __init__.py
    SyncVersion,
}

/// Execution context passed to commands.
#[derive(Clone)]
pub struct ExecContext {
    pub verbose: bool,
    pub quiet: bool,
    pub dry_run: bool,
    pub yes: bool,
    pub output_format: OutputFormat,
    pub jobs: usize,
    pub progress: Option<Arc<MultiProgress>>,
}

/// The context that `from_cli` derives from `cli`: JSON output implies quiet,
/// at least one job, and a progress manager exactly when not quiet.
pub open spec fn derived_from(cli: &Cli, ctx: &ExecContext) -> bool {
    &&& ctx.verbose == cli.verbose
    &&& ctx.quiet == (cli.quiet || cli.json)
    &&& ctx.dry_run == cli.dry_run
    &&& ctx.yes == cli.yes
    &&& ctx.output_format == (if cli.json { OutputFormat::Json } else { OutputFormat::Human })
    &&& ctx.jobs == (if cli.jobs > 1 { cli.jobs } else { 1 })
    &&& (ctx.progress is Some <==> !ctx.quiet)
}

impl ExecContext {
    /// Create context from CLI flags.
    pub fn from_cli(cli: &Cli) -> (ctx: Self)
        ensures
            derived_from(cli, &ctx),
    {
        let output_format = if cli.json {
            OutputFormat::Json
        } else {
            OutputFormat::Human
        };
        // JSON mode implies quiet
        let quiet = cli.quiet || cli.json;
        // A progress bar manager only when not quiet
        let progress = if !quiet {
            Some(Arc::new(new_multi_progress()))
        } else {
            None
        };
        let jobs = if cli.jobs > 1 { cli.jobs } else { 1 };
        ExecContext {
            verbose: cli.verbose,
            quiet,
            dry_run: cli.dry_run,
            yes: cli.yes,
            output_format,
            jobs,
            progress,
        }
    }

    /// Check if output should be shown.
    pub fn should_print(&self) -> (r: bool)
        ensures
            r == !self.quiet,
    {
        !self.quiet
    }

    /// Check if JSON output mode is enabled.
    pub fn is_json(&self) -> (r: bool)
        ensures
            r == (self.output_format == OutputFormat::Json),
    {
        self.output_format == OutputFormat::Json
    }

    /// Check if parallel execution is enabled.
    pub fn is_parallel(&self) -> (r: bool)
        ensures
            r == (self.jobs > 1),
    {
        self.jobs > 1
    }
}

/// A context derived from flags that ask for JSON output prints nothing besides
/// the JSON: it is quiet and draws no progress bars.
pub proof fn law_json_context_is_quiet(cli: &Cli, ctx: &ExecContext)
    requires
        derived_from(cli, ctx),
        cli.json,
    ensures
        ctx.output_format == OutputFormat::Json,
        ctx.quiet,
        ctx.progress is None,
{
}

/// A derived context runs at least one job, and runs in parallel exactly when
/// more than one job was asked for.
pub proof fn law_jobs_at_least_one(cli: &Cli, ctx: &ExecContext)
    requires
        derived_from(cli, ctx),
    ensures
        ctx.jobs >= 1,
        (ctx.jobs > 1) == (cli.jobs > 1),
{
}

} // verus!
