//! Errors of rsbuild operations.

use crate::text::{decimal, extend_str, has_prefix, push_decimal, string_of};
use vstd::prelude::*;

verus! {

/// Lets `std::io::Error` be carried by `RsbuildError::Io`.
#[verifier::external_type_specification]
#[verifier::external_body]
pub struct ExIoError(std::io::Error);

/// Lets `std::string::FromUtf8Error` be carried by `RsbuildError::Utf8`.
#[verifier::external_type_specification]
#[verifier::external_body]
pub struct ExFromUtf8Error(std::string::FromUtf8Error);

/// Errors that can occur during rsbuild operations.
#[derive(Debug)]
pub enum RsbuildError {
    /// A required external tool is not installed.
    ToolNotFound { tool: String, hint: String },
    /// A command ran and exited unsuccessfully.
    CommandFailed { command: String, code: i32, message: String },
    /// A command or an operation could not be carried out.
    ExecutionFailed(String),
    /// A file or directory does not exist.
    PathNotFound { path: String },
    /// An input/output error.
    Io(std::io::Error),
    /// Bytes that should have been UTF-8 were not.
    Utf8(std::string::FromUtf8Error),
}

/// `code` in decimal, with a leading `-` when negative.
pub open spec fn signed_decimal(code: int) -> Seq<char> {
    if code < 0 {
        seq!['-'] + decimal((-code) as nat)
    } else {
        decimal(code as nat)
    }
}

/// The text of an input/output error, as its `Display` writes it. Nothing is
/// claimed of it: the operating system's own message goes into it.
#[verifier::external_body]
fn io_error_text(e: &std::io::Error) -> String {
    e.to_string()
}

/// The text of a UTF-8 conversion error, as its `Display` writes it. Nothing
/// is claimed of it.
#[verifier::external_body]
fn utf8_error_text(e: &std::string::FromUtf8Error) -> String {
    e.to_string()
}

impl RsbuildError {
    /// The message that reports this error.
    pub fn message(&self) -> (r: String)
        ensures
            self matches RsbuildError::ToolNotFound { tool, hint } ==> r@ == "Required tool '"@ + tool@
                + "' is not installed. "@ + hint@,
            self matches RsbuildError::CommandFailed { command, code, message } ==> r@ == "Command failed: "@
                + command@ + "\n  Exit code: "@ + signed_decimal(code as int) + "\n  Error: "@ + message@,
            self matches RsbuildError::ExecutionFailed(m) ==> r@ == "Failed to execute command: "@ + m@,
            self matches RsbuildError::PathNotFound { path } ==> r@ == "Path not found: "@ + path@,
            self is Io ==> has_prefix(r@, "IO error: "@),
            self is Utf8 ==> has_prefix(r@, "UTF-8 conversion error: "@),
    {
        let mut out: Vec<char> = Vec::new();
        match self {
            RsbuildError::ToolNotFound { tool, hint } => {
                extend_str(&mut out, "Required tool '");
                extend_str(&mut out, tool.as_str());
                extend_str(&mut out, "' is not installed. ");
                extend_str(&mut out, hint.as_str());
            },
            RsbuildError::CommandFailed { command, code, message } => {
                extend_str(&mut out, "Command failed: ");
                extend_str(&mut out, command.as_str());
                extend_str(&mut out, "\n  Exit code: ");
                if *code < 0 {
                    out.push('-');
                    let magnitude: u64 = (0i64 - (*code as i64)) as u64;
                    push_decimal(&mut out, magnitude);
                } else {
                    push_decimal(&mut out, *code as u64);
                }
                extend_str(&mut out, "\n  Error: ");
                extend_str(&mut out, message.as_str());
            },
            RsbuildError::ExecutionFailed(m) => {
                extend_str(&mut out, "Failed to execute command: ");
                extend_str(&mut out, m.as_str());
            },
            RsbuildError::PathNotFound { path } => {
                extend_str(&mut out, "Path not found: ");
                extend_str(&mut out, path.as_str());
            },
            RsbuildError::Io(e) => {
                extend_str(&mut out, "IO error: ");
                let text = io_error_text(e);
                extend_str(&mut out, text.as_str());
                proof { reveal_strlit("IO error: "); }
                assert(out@.take(10) =~= "IO error: "@);
            },
            RsbuildError::Utf8(e) => {
                extend_str(&mut out, "UTF-8 conversion error: ");
                let text = utf8_error_text(e);
                extend_str(&mut out, text.as_str());
                proof { reveal_strlit("UTF-8 conversion error: "); }
                assert(out@.take(24) =~= "UTF-8 conversion error: "@);
            },
        }
        string_of(&out)
    }
}

} // verus!
