use rsbuild::cli::{ExecContext, OutputFormat};
use rsbuild::error::RsbuildError;
use rsbuild::executor::{
    exec_report, exec_silent_result, exec_silent_step, exec_step, get_install_hint, read_output_str,
    tool_check, ExecStep, ProcessOutput,
};

fn ctx(quiet: bool, verbose: bool, dry_run: bool) -> ExecContext {
    ExecContext { verbose, quiet, dry_run, yes: false, output_format: OutputFormat::Human, jobs: 1, progress: None }
}

fn output(success: bool, code: Option<i32>, stdout: &str, stderr: &str) -> ProcessOutput {
    ProcessOutput { success, code, stdout: stdout.as_bytes().to_vec(), stderr: stderr.as_bytes().to_vec() }
}

#[test]
fn install_hints() {
    assert_eq!(get_install_hint("docker"), "Install Docker: https://docs.docker.com/get-docker/");
    assert_eq!(get_install_hint("cargo"), "Install Rust: https://rustup.rs/");
    assert_eq!(get_install_hint("pip"), "Install pip: https://pip.pypa.io/en/stable/installation/");
    assert_eq!(get_install_hint("cythonize"), "Install Cython: pip install cython");
    assert_eq!(get_install_hint("rsync"), "Install rsync using your package manager");
    assert_eq!(get_install_hint("glances"), "Install glances: pip install glances");
    assert_eq!(get_install_hint("uv"), "Please install 'uv' and ensure it's in your PATH");
}

#[test]
fn missing_tool_error() {
    assert!(tool_check("cargo", true).is_ok());
    match tool_check("rsync", false) {
        Err(RsbuildError::ToolNotFound { tool, hint }) => {
            assert_eq!(tool, "rsync");
            assert_eq!(hint, "Install rsync using your package manager");
        }
        _ => panic!("expected ToolNotFound"),
    }
}

#[test]
fn output_string_loses_one_newline() {
    assert_eq!(read_output_str(b"Linux\n".to_vec()).unwrap(), "Linux");
    assert_eq!(read_output_str(b"a\n\n".to_vec()).unwrap(), "a\n");
    assert_eq!(read_output_str(b"x86_64".to_vec()).unwrap(), "x86_64");
    assert_eq!(read_output_str(Vec::new()).unwrap(), "");
    assert!(matches!(read_output_str(vec![0xff, 0xfe]), Err(RsbuildError::Utf8(_))));
}

#[test]
fn dry_run_runs_nothing() {
    assert_eq!(exec_step(&ctx(false, false, true)), ExecStep::Preview);
    assert_eq!(exec_step(&ctx(true, false, true)), ExecStep::Skip);
    assert_eq!(exec_silent_step(&ctx(false, false, true)), ExecStep::Skip);
    assert_eq!(exec_step(&ctx(false, false, false)), ExecStep::Run { announce: true });
    assert_eq!(exec_step(&ctx(true, true, false)), ExecStep::Run { announce: false });
    assert_eq!(exec_silent_step(&ctx(false, false, false)), ExecStep::Run { announce: false });
}

#[test]
fn successful_run_is_cleaned() {
    let rep = exec_report("ls", &ctx(false, false, false), output(true, Some(0), "[output] hi [rsbuild] there\n", "[error] warn\n"));
    assert_eq!(rep.result.unwrap(), "hi there\n");
    assert_eq!(rep.shown_stdout, Some("hi there\n".to_string()));
    assert_eq!(rep.shown_stderr, Some("warn\n".to_string()));
}

#[test]
fn quiet_run_shows_nothing_unless_verbose() {
    let rep = exec_report("ls", &ctx(true, false, false), output(true, Some(0), "out", "err"));
    assert_eq!(rep.shown_stdout, None);
    assert_eq!(rep.shown_stderr, None);
    let rep = exec_report("ls", &ctx(true, true, false), output(true, Some(0), "out", ""));
    assert_eq!(rep.shown_stdout, Some("out".to_string()));
    assert_eq!(rep.shown_stderr, None);
}

#[test]
fn failed_run_reports_first_line() {
    let rep = exec_report("make", &ctx(false, false, false), output(false, Some(2), "", "[error] first\r\nsecond\n"));
    match rep.result {
        Err(RsbuildError::CommandFailed { command, code, message }) => {
            assert_eq!(command, "make");
            assert_eq!(code, 2);
            assert_eq!(message, "first");
        }
        _ => panic!("expected CommandFailed"),
    }
}

#[test]
fn failed_run_without_stderr() {
    let rep = exec_report("make", &ctx(false, false, false), output(false, None, "x", ""));
    match rep.result {
        Err(RsbuildError::CommandFailed { code, message, .. }) => {
            assert_eq!(code, -1);
            assert_eq!(message, "Unknown error");
        }
        _ => panic!("expected CommandFailed"),
    }
}

#[test]
fn invalid_output_is_an_error() {
    let out = ProcessOutput { success: true, code: Some(0), stdout: vec![0xc3], stderr: Vec::new() };
    let rep = exec_report("x", &ctx(false, false, false), out);
    assert!(matches!(rep.result, Err(RsbuildError::Utf8(_))));
    assert!(rep.shown_stdout.is_none());
}

#[test]
fn silent_run_keeps_output() {
    let r = exec_silent_result("ls", output(true, Some(0), "[output] a\n", "ignored"));
    assert_eq!(r.unwrap(), "[output] a\n");
    match exec_silent_result("ls", output(false, Some(1), "", "[error] nope\nmore")) {
        Err(RsbuildError::CommandFailed { message, code, .. }) => {
            assert_eq!(message, "[error] nope");
            assert_eq!(code, 1);
        }
        _ => panic!("expected CommandFailed"),
    }
}

#[test]
fn unknown_tool_is_reported_with_hint() {
    match tool_check("no-such-tool-for-rsbuild-tests", false) {
        Err(RsbuildError::ToolNotFound { tool, hint }) => {
            assert_eq!(tool, "no-such-tool-for-rsbuild-tests");
            assert_eq!(hint, "Please install 'no-such-tool-for-rsbuild-tests' and ensure it's in your PATH");
        }
        _ => panic!("expected ToolNotFound"),
    }
}

#[test]
fn error_messages() {
    let e = RsbuildError::ToolNotFound { tool: "uv".to_string(), hint: "Install uv".to_string() };
    assert_eq!(e.message(), "Required tool 'uv' is not installed. Install uv");
    let e = RsbuildError::CommandFailed { command: "make".to_string(), code: 2, message: "boom".to_string() };
    assert_eq!(e.message(), "Command failed: make\n  Exit code: 2\n  Error: boom");
    let e = RsbuildError::CommandFailed { command: "x".to_string(), code: -1, message: String::new() };
    assert_eq!(e.message(), "Command failed: x\n  Exit code: -1\n  Error: ");
    let e = RsbuildError::CommandFailed { command: "x".to_string(), code: i32::MIN, message: String::new() };
    assert_eq!(e.message(), format!("Command failed: x\n  Exit code: {}\n  Error: ", i32::MIN));
    let e = RsbuildError::ExecutionFailed("no shell".to_string());
    assert_eq!(e.message(), "Failed to execute command: no shell");
    let e = RsbuildError::PathNotFound { path: "pyproject.toml".to_string() };
    assert_eq!(e.message(), "Path not found: pyproject.toml");
    let io = std::io::Error::new(std::io::ErrorKind::Other, "disk full");
    let expected = format!("IO error: {}", io);
    assert_eq!(RsbuildError::Io(io).message(), expected);
    let bad = String::from_utf8(vec![0x61, 0xff]).unwrap_err();
    let expected = format!("UTF-8 conversion error: {}", bad);
    assert_eq!(RsbuildError::Utf8(bad).message(), expected);
}
