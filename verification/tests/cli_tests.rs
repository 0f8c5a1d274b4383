use rsbuild::cli::{Cli, Commands, ExecContext, OutputFormat};

fn cli(quiet: bool, json: bool, jobs: usize) -> Cli {
    Cli { verbose: true, quiet, dry_run: true, yes: false, json, jobs, command: Commands::Doctor }
}

#[test]
fn json_implies_quiet() {
    let ctx = ExecContext::from_cli(&cli(false, true, 1));
    assert!(ctx.quiet);
    assert!(ctx.is_json());
    assert!(!ctx.should_print());
    assert!(ctx.progress.is_none());
    assert_eq!(ctx.output_format, OutputFormat::Json);
}

#[test]
fn human_output_has_progress() {
    let ctx = ExecContext::from_cli(&cli(false, false, 1));
    assert!(!ctx.quiet);
    assert!(ctx.should_print());
    assert!(!ctx.is_json());
    assert!(ctx.progress.is_some());
    assert!(ctx.verbose);
    assert!(ctx.dry_run);
    assert!(!ctx.yes);
}

#[test]
fn quiet_has_no_progress() {
    let ctx = ExecContext::from_cli(&cli(true, false, 1));
    assert!(ctx.progress.is_none());
    assert_eq!(ctx.output_format, OutputFormat::Human);
}

#[test]
fn jobs_at_least_one() {
    let ctx = ExecContext::from_cli(&cli(true, false, 0));
    assert_eq!(ctx.jobs, 1);
    assert!(!ctx.is_parallel());
    let ctx = ExecContext::from_cli(&cli(true, false, 4));
    assert_eq!(ctx.jobs, 4);
    assert!(ctx.is_parallel());
}

#[test]
fn default_output_format_is_human() {
    assert_eq!(OutputFormat::default(), OutputFormat::Human);
}
