//! Command execution: what is run, what is shown, and what a run yields.

use crate::cli::ExecContext;
use crate::error::RsbuildError;
use crate::text::{
    chars_of, extend_str, first_line, first_line_exec, replace_all, replace_all_exec, same_text,
    string_of, text_of,
};
use vstd::prelude::*;
use vstd::utf8::{decode_utf8, valid_utf8};

verus! {

/// Prefix of rsbuild's own messages.
pub const PREFIX_RSBUILD: &'static str = "[rsbuild]";
/// Prefix of a command's standard output when echoed.
pub const PREFIX_OUTPUT: &'static str = "[output]";
/// Prefix of a command's standard error when echoed.
pub const PREFIX_ERROR: &'static str = "[error]";
/// Prefix of a command shown but not run.
pub const PREFIX_DRY_RUN: &'static str = "[dry-run]";

/// The installation hint shown for a missing tool.
pub open spec fn install_hint(tool: Seq<char>) -> Seq<char> {
    if tool == "docker"@ {
        "Install Docker: https://docs.docker.com/get-docker/"@
    } else if tool == "cargo"@ {
        "Install Rust: https://rustup.rs/"@
    } else if tool == "pip"@ {
        "Install pip: https://pip.pypa.io/en/stable/installation/"@
    } else if tool == "cythonize"@ {
        "Install Cython: pip install cython"@
    } else if tool == "rsync"@ {
        "Install rsync using your package manager"@
    } else if tool == "glances"@ {
        "Install glances: pip install glances"@
    } else {
        "Please install '"@ + tool + "' and ensure it's in your PATH"@
    }
}

/// Get installation hint for common tools.
pub fn get_install_hint(tool: &str) -> (hint: String)
    ensures
        hint@ == install_hint(tool@),
{
    if same_text(tool, "docker") {
        text_of("Install Docker: https://docs.docker.com/get-docker/")
    } else if same_text(tool, "cargo") {
        text_of("Install Rust: https://rustup.rs/")
    } else if same_text(tool, "pip") {
        text_of("Install pip: https://pip.pypa.io/en/stable/installation/")
    } else if same_text(tool, "cythonize") {
        text_of("Install Cython: pip install cython")
    } else if same_text(tool, "rsync") {
        text_of("Install rsync using your package manager")
    } else if same_text(tool, "glances") {
        text_of("Install glances: pip install glances")
    } else {
        let mut out: Vec<char> = Vec::new();
        extend_str(&mut out, "Please install '");
        extend_str(&mut out, tool);
        extend_str(&mut out, "' and ensure it's in your PATH");
        string_of(&out)
    }
}

/// The outcome of looking a tool up in PATH (`check_tool`): `Ok` when it was
/// found, else `ToolNotFound` with the installation hint.
pub fn tool_check(name: &str, found: bool) -> (r: Result<(), RsbuildError>)
    ensures
        found ==> r is Ok,
        !found ==> (r matches Err(RsbuildError::ToolNotFound { tool, hint })
            && tool@ == name@ && hint@ == install_hint(name@)),
{
    if found {
        Ok(())
    } else {
        Err(RsbuildError::ToolNotFound { tool: text_of(name), hint: get_install_hint(name) })
    }
}

/// `String::from_utf8`. Claimed: `Ok` exactly for valid UTF-8, holding the
/// decoded characters.
#[verifier::external_body]
fn decode_utf8_bytes(bytes: Vec<u8>) -> (r: Result<String, std::string::FromUtf8Error>)
    ensures
        r is Ok <==> valid_utf8(bytes@),
        r matches Ok(s) ==> s@ == decode_utf8(bytes@),
{
    String::from_utf8(bytes)
}

/// `s` without one final line feed, if it ends with one.
pub open spec fn without_final_newline(s: Seq<char>) -> Seq<char> {
    if s.len() > 0 && s.last() == '\n' {
        s.drop_last()
    } else {
        s
    }
}

/// The captured standard output of a command as text, without one trailing
/// line feed (the text part of reading a command's output as a string).
pub fn read_output_str(stdout: Vec<u8>) -> (r: Result<String, RsbuildError>)
    ensures
        valid_utf8(stdout@) ==> (r matches Ok(s) && s@ == without_final_newline(decode_utf8(stdout@))),
        !valid_utf8(stdout@) ==> r matches Err(RsbuildError::Utf8(_)),
{
    match decode_utf8_bytes(stdout) {
        Ok(s) => {
            let mut chars = chars_of(s.as_str());
            if chars.len() > 0 && chars[chars.len() - 1] == '\n' {
                chars.pop();
            }
            Ok(string_of(&chars))
        },
        Err(e) => Err(RsbuildError::Utf8(e)),
    }
}

/// What a finished process left: its exit status and its captured streams.
pub struct ProcessOutput {
    /// The process exited successfully.
    pub success: bool,
    /// Its exit code, where it has one (none when a signal ended it).
    pub code: Option<i32>,
    pub stdout: Vec<u8>,
    pub stderr: Vec<u8>,
}

/// What `exec` does first.
#[derive(Clone, Copy, Debug, PartialEq, Eq, Structural)]
pub enum ExecStep {
    /// Dry run, quiet: nothing is shown and nothing is run.
    Skip,
    /// Dry run: the command is shown with the dry-run prefix, and not run.
    Preview,
    /// The command is run, announced first when `announce` holds.
    Run { announce: bool },
}

/// What `exec` does with a command under `ctx`: a dry run shows the command
/// (unless quiet) and runs nothing; otherwise it runs, announced unless quiet.
pub open spec fn exec_step_of(ctx: &ExecContext) -> ExecStep {
    if ctx.dry_run {
        if ctx.quiet { ExecStep::Skip } else { ExecStep::Preview }
    } else {
        ExecStep::Run { announce: !ctx.quiet }
    }
}

/// What `exec_silent` does with a command under `ctx`: it runs it, without
/// announcing it, unless this is a dry run.
pub open spec fn exec_silent_step_of(ctx: &ExecContext) -> ExecStep {
    if ctx.dry_run { ExecStep::Skip } else { ExecStep::Run { announce: false } }
}

/// What `exec` does with a command under `ctx`.
pub fn exec_step(ctx: &ExecContext) -> (step: ExecStep)
    ensures
        step == exec_step_of(ctx),
{
    if ctx.dry_run {
        if ctx.should_print() {
            ExecStep::Preview
        } else {
            ExecStep::Skip
        }
    } else {
        ExecStep::Run { announce: ctx.should_print() }
    }
}

/// What `exec_silent` does with a command under `ctx`.
pub fn exec_silent_step(ctx: &ExecContext) -> (step: ExecStep)
    ensures
        step == exec_silent_step_of(ctx),
{
    if ctx.dry_run {
        ExecStep::Skip
    } else {
        ExecStep::Run { announce: false }
    }
}

/// Outside a dry run `exec` always runs the command, whatever the display
/// settings: quiet (or JSON output) only leaves out the announcement.
/// `exec_silent` runs it too, never announced.
pub proof fn law_exec_runs_outside_dry_run(ctx: &ExecContext)
    requires
        !ctx.dry_run,
    ensures
        exec_step_of(ctx) == (ExecStep::Run { announce: !ctx.quiet }),
        exec_silent_step_of(ctx) == (ExecStep::Run { announce: false }),
{
}

/// In a dry run neither `exec` nor `exec_silent` runs a command.
pub proof fn law_dry_run_runs_nothing(ctx: &ExecContext)
    requires
        ctx.dry_run,
    ensures
        !(exec_step_of(ctx) is Run),
        !(exec_silent_step_of(ctx) is Run),
{
}

/// Standard output with nested rsbuild prefixes removed.
pub open spec fn clean_stdout(s: Seq<char>) -> Seq<char> {
    replace_all(replace_all(s, "[output] "@, Seq::empty()), "[rsbuild] "@, Seq::empty())
}

/// Standard error with nested rsbuild prefixes removed.
pub open spec fn clean_stderr(s: Seq<char>) -> Seq<char> {
    replace_all(replace_all(s, "[error] "@, Seq::empty()), "[rsbuild] "@, Seq::empty())
}

/// The message of a failed command: the first line of its standard error.
pub open spec fn failure_message(stderr: Seq<char>) -> Seq<char> {
    match first_line(stderr) {
        Some(l) => l,
        None => "Unknown error"@,
    }
}

/// The error of a command that exited unsuccessfully.
pub open spec fn command_failed(command: Seq<char>, code: Option<i32>, stderr: Seq<char>, e: RsbuildError) -> bool {
    e matches RsbuildError::CommandFailed { command: c, code: k, message: m }
        && c@ == command && k == (match code { Some(x) => x, None => -1i32 })
        && m@ == failure_message(stderr)
}

fn remove_all(s: &Vec<char>, pat: &str) -> (out: Vec<char>)
    requires
        pat@.len() > 0,
    ensures
        out@ == replace_all(s@, pat@, Seq::empty()),
{
    let p = chars_of(pat);
    let none: Vec<char> = Vec::new();
    assert(none@ =~= Seq::<char>::empty());
    replace_all_exec(s, &p, &none)
}

fn failure(command: &str, code: Option<i32>, stderr: &Vec<char>) -> (e: RsbuildError)
    ensures
        command_failed(command@, code, stderr@, e),
{
    let message = match first_line_exec(stderr) {
        Some(l) => string_of(&l),
        None => text_of("Unknown error"),
    };
    let code = match code {
        Some(x) => x,
        None => -1,
    };
    RsbuildError::CommandFailed { command: text_of(command), code, message }
}

/// What `exec` shows and returns once the process has finished.
pub struct ExecReport {
    /// Cleaned standard output to echo, with the output prefix.
    pub shown_stdout: Option<String>,
    /// Cleaned standard error to echo, with the error prefix.
    pub shown_stderr: Option<String>,
    /// The cleaned standard output, or the error.
    pub result: Result<String, RsbuildError>,
}

/// The report of `exec` on a finished process: both streams must be UTF-8;
/// the cleaned streams are echoed when output is shown or verbose and they are
/// not empty; a failure yields `CommandFailed` with the first line of the
/// cleaned standard error.
pub fn exec_report(command: &str, ctx: &ExecContext, out: ProcessOutput) -> (rep: ExecReport)
    ensures
        !valid_utf8(out.stdout@) || !valid_utf8(out.stderr@) ==> {
            &&& rep.result matches Err(RsbuildError::Utf8(_))
            &&& rep.shown_stdout is None
            &&& rep.shown_stderr is None
        },
        valid_utf8(out.stdout@) && valid_utf8(out.stderr@) ==> {
            let so = clean_stdout(decode_utf8(out.stdout@));
            let se = clean_stderr(decode_utf8(out.stderr@));
            let show = !ctx.quiet || ctx.verbose;
            &&& (match rep.shown_stdout {
                Some(t) => show && so.len() > 0 && t@ == so,
                None => !(show && so.len() > 0),
            })
            &&& (match rep.shown_stderr {
                Some(t) => show && se.len() > 0 && t@ == se,
                None => !(show && se.len() > 0),
            })
            &&& (out.success ==> (rep.result matches Ok(s) && s@ == so))
            &&& (!out.success ==> (rep.result matches Err(e) && command_failed(command@, out.code, se, e)))
        },
{
    let ProcessOutput { success, code, stdout, stderr } = out;
    let stdout = match decode_utf8_bytes(stdout) {
        Ok(s) => s,
        Err(e) => {
            return ExecReport { shown_stdout: None, shown_stderr: None, result: Err(RsbuildError::Utf8(e)) };
        },
    };
    let stderr = match decode_utf8_bytes(stderr) {
        Ok(s) => s,
        Err(e) => {
            return ExecReport { shown_stdout: None, shown_stderr: None, result: Err(RsbuildError::Utf8(e)) };
        },
    };
    proof {
        reveal_strlit("[output] ");
        reveal_strlit("[rsbuild] ");
        reveal_strlit("[error] ");
    }
    let so = chars_of(stdout.as_str());
    let so = remove_all(&so, "[output] ");
    let so = remove_all(&so, "[rsbuild] ");
    let se = chars_of(stderr.as_str());
    let se = remove_all(&se, "[error] ");
    let se = remove_all(&se, "[rsbuild] ");
    let show = ctx.should_print() || ctx.verbose;
    let shown_stdout = if show && so.len() > 0 { Some(string_of(&so)) } else { None };
    let shown_stderr = if show && se.len() > 0 { Some(string_of(&se)) } else { None };
    let result = if success {
        Ok(string_of(&so))
    } else {
        Err(failure(command, code, &se))
    };
    ExecReport { shown_stdout, shown_stderr, result }
}

/// What `exec_silent` returns once the process has finished: its standard
/// output as it is, or `CommandFailed` with the first line of its standard error.
pub fn exec_silent_result(command: &str, out: ProcessOutput) -> (r: Result<String, RsbuildError>)
    ensures
        !valid_utf8(out.stdout@) ==> r matches Err(RsbuildError::Utf8(_)),
        valid_utf8(out.stdout@) && out.success ==> (r matches Ok(s) && s@ == decode_utf8(out.stdout@)),
        valid_utf8(out.stdout@) && !out.success && !valid_utf8(out.stderr@) ==> r matches Err(
            RsbuildError::Utf8(_),
        ),
        valid_utf8(out.stdout@) && !out.success && valid_utf8(out.stderr@) ==> (r matches Err(e)
            && command_failed(command@, out.code, decode_utf8(out.stderr@), e)),
{
    let ProcessOutput { success, code, stdout, stderr } = out;
    let stdout = match decode_utf8_bytes(stdout) {
        Ok(s) => s,
        Err(e) => return Err(RsbuildError::Utf8(e)),
    };
    if !success {
        let stderr = match decode_utf8_bytes(stderr) {
            Ok(s) => s,
            Err(e) => return Err(RsbuildError::Utf8(e)),
        };
        let se = chars_of(stderr.as_str());
        return Err(failure(command, code, &se));
    }
    Ok(stdout)
}

} // verus!
