//! Error values of the library.

use crate::engines::Fuzzer;
use crate::runner::Stage;
use crate::text::{decimal_i32, signed_decimal_text};
use vstd::prelude::*;
use vstd::string::*;

verus! {

/// General errors of the command-line front end.
#[derive(Debug, PartialEq, Eq)]
pub enum TariError {
    /// Could not create a directory or file error
    FailedCreatingFile(String),
    /// Invalid fuzzer option
    InvalidFuzzer { expected: String, found: String },
    UnexpectedError(String),
}

/// Result type for Tari
pub type Result<T> = core::result::Result<T, TariError>;

/// The text that `{:?}` formatting gives for a string: the string between
/// double quotes, with quotes, backslashes and unprintable characters escaped.
pub uninterp spec fn debug_form(s: Seq<char>) -> Seq<char>;

/// A trusted call of the standard `Debug` formatting of a string, the only
/// thing the format string asks for.
#[verifier::external_body]
fn debug_quoted(s: &str) -> (quoted: String)
    ensures
        quoted@ == debug_form(s@),
{
    format!("{:?}", s)
}

impl TariError {
    /// The text shown for this error.
    pub open spec fn spec_message(&self) -> Seq<char> {
        match self {
            TariError::FailedCreatingFile(_) => "Could not create a directory or file"@,
            TariError::InvalidFuzzer { expected, found } => "invalid fuzzer engine (expected "@
                + debug_form(expected@) + ", got "@ + debug_form(found@) + ")"@,
            TariError::UnexpectedError(_) => "Unexpected Error"@,
        }
    }

    /// Renders the error as text.
    pub fn message(&self) -> (text: String)
        ensures
            text@ == self.spec_message(),
    {
        match self {
            TariError::FailedCreatingFile(_) => String::from_str(
                "Could not create a directory or file",
            ),
            TariError::InvalidFuzzer { expected, found } => {
                let mut text = String::from_str("invalid fuzzer engine (expected ");
                let e = debug_quoted(expected.as_str());
                text.append(e.as_str());
                text.append(", got ");
                let f = debug_quoted(found.as_str());
                text.append(f.as_str());
                text.append(")");
                text
            },
            TariError::UnexpectedError(_) => String::from_str("Unexpected Error"),
        }
    }
}

/// Why a corpus could not be planned or an engine run stopped short. Every
/// value names the target, path, tool or engine that it is about.
#[derive(Debug, PartialEq, Eq)]
pub enum RunError {
    /// The name is not that of a registered target.
    UnknownTarget { target: String },
    /// There is no saying how the seeds of the target are made.
    NoSeedPolicy { target: String },
    /// The engine cannot run on this kind of host.
    UnsupportedPlatform { fuzzer: Fuzzer },
    /// The engine's template could not be read.
    TemplateUnreadable { path: String },
    /// The harness source could not be written.
    HarnessUnwritable { path: String },
    /// A directory could not be created.
    DirectoryFailed { path: String },
    /// A seed file could not be written.
    SeedUnwritable { path: String },
    /// The tool that the engine needs is not there; `hint` is the command
    /// that installs it.
    PreCheckFailed { hint: String },
    /// The instrumented binary could not be built.
    BuildFailed { code: Option<i32> },
    /// The engine ran and reported failure.
    EngineFailed { fuzzer: Fuzzer, code: Option<i32> },
    /// The process of the stage `stage` could not be started or waited for.
    LaunchFailed { fuzzer: Fuzzer, stage: Stage },
    /// The run was told of something that it had not asked for.
    OutOfTurn,
}

/// What a `RunError` says, with strings as sequences of characters.
pub enum RunErrorView {
    UnknownTarget { target: Seq<char> },
    NoSeedPolicy { target: Seq<char> },
    UnsupportedPlatform { fuzzer: Fuzzer },
    TemplateUnreadable { path: Seq<char> },
    HarnessUnwritable { path: Seq<char> },
    DirectoryFailed { path: Seq<char> },
    SeedUnwritable { path: Seq<char> },
    PreCheckFailed { hint: Seq<char> },
    BuildFailed { code: Option<i32> },
    EngineFailed { fuzzer: Fuzzer, code: Option<i32> },
    LaunchFailed { fuzzer: Fuzzer, stage: Stage },
    OutOfTurn,
}

impl View for RunError {
    type V = RunErrorView;

    open spec fn view(&self) -> RunErrorView {
        match self {
            RunError::UnknownTarget { target } => RunErrorView::UnknownTarget { target: target@ },
            RunError::NoSeedPolicy { target } => RunErrorView::NoSeedPolicy { target: target@ },
            RunError::UnsupportedPlatform { fuzzer } => RunErrorView::UnsupportedPlatform {
                fuzzer: *fuzzer,
            },
            RunError::TemplateUnreadable { path } => RunErrorView::TemplateUnreadable {
                path: path@,
            },
            RunError::HarnessUnwritable { path } => RunErrorView::HarnessUnwritable { path: path@ },
            RunError::DirectoryFailed { path } => RunErrorView::DirectoryFailed { path: path@ },
            RunError::SeedUnwritable { path } => RunErrorView::SeedUnwritable { path: path@ },
            RunError::PreCheckFailed { hint } => RunErrorView::PreCheckFailed { hint: hint@ },
            RunError::BuildFailed { code } => RunErrorView::BuildFailed { code: *code },
            RunError::EngineFailed { fuzzer, code } => RunErrorView::EngineFailed {
                fuzzer: *fuzzer,
                code: *code,
            },
            RunError::LaunchFailed { fuzzer, stage } => RunErrorView::LaunchFailed {
                fuzzer: *fuzzer,
                stage: *stage,
            },
            RunError::OutOfTurn => RunErrorView::OutOfTurn,
        }
    }
}

/// The text of an optional exit code: `Some` with the code in brackets, or
/// `None`.
pub open spec fn spec_code_text(code: Option<i32>) -> Seq<char> {
    match code {
        Some(c) => "Some("@ + signed_decimal_text(c as int) + ")"@,
        None => "None"@,
    }
}

/// Renders an optional exit code as text.
pub fn code_text(code: Option<i32>) -> (text: String)
    ensures
        text@ == spec_code_text(code),
{
    match code {
        Some(c) => {
            let mut text = String::from_str("Some(");
            let digits = decimal_i32(c);
            text.append(digits.as_str());
            text.append(")");
            text
        },
        None => String::from_str("None"),
    }
}

impl RunErrorView {
    /// The text shown for this error.
    pub open spec fn message(self) -> Seq<char> {
        match self {
            RunErrorView::UnknownTarget { target } => "Uknkown fuzz target "@ + target
                + " selected"@,
            RunErrorView::NoSeedPolicy { target } => "Unable to generate fuzzing seeds for "@
                + debug_form(target),
            RunErrorView::UnsupportedPlatform { fuzzer } =>
                "libfuzzer-sys only supports Linux and macOS"@,
            RunErrorView::TemplateUnreadable { path } => "Error reading template file "@ + path,
            RunErrorView::HarnessUnwritable { path } =>
                "Error writing fuzz target source file "@ + path,
            RunErrorView::DirectoryFailed { path } => "unable to create directory "@ + path,
            RunErrorView::SeedUnwritable { path } => "Failed to write to file: "@ + debug_form(
                path,
            ),
            RunErrorView::PreCheckFailed { hint } =>
                "Pre-checking for fuzzing failed. Consider run `"@ + hint + "` before fuzzing."@,
            RunErrorView::BuildFailed { code } =>
                "error building afl instrumented binary, exit code "@ + spec_code_text(code),
            RunErrorView::EngineFailed { fuzzer, code } => fuzzer.spec_name()
                + " exited with code "@ + spec_code_text(code),
            RunErrorView::LaunchFailed { fuzzer, stage } => (if stage == Stage::Building {
                "Failed to build "@
            } else {
                "Failed to run "@
            }) + fuzzer.spec_name(),
            RunErrorView::OutOfTurn => "the run was told of something it had not asked for"@,
        }
    }
}

impl RunError {
    /// Renders the error as text.
    pub fn message(&self) -> (text: String)
        ensures
            text@ == self@.message(),
    {
        match self {
            RunError::UnknownTarget { target } => {
                let mut text = String::from_str("Uknkown fuzz target ");
                text.append(target.as_str());
                text.append(" selected");
                text
            },
            RunError::NoSeedPolicy { target } => {
                let mut text = String::from_str("Unable to generate fuzzing seeds for ");
                let quoted = debug_quoted(target.as_str());
                text.append(quoted.as_str());
                text
            },
            RunError::UnsupportedPlatform { fuzzer } => String::from_str(
                "libfuzzer-sys only supports Linux and macOS",
            ),
            RunError::TemplateUnreadable { path } => {
                let mut text = String::from_str("Error reading template file ");
                text.append(path.as_str());
                text
            },
            RunError::HarnessUnwritable { path } => {
                let mut text = String::from_str("Error writing fuzz target source file ");
                text.append(path.as_str());
                text
            },
            RunError::DirectoryFailed { path } => {
                let mut text = String::from_str("unable to create directory ");
                text.append(path.as_str());
                text
            },
            RunError::SeedUnwritable { path } => {
                let mut text = String::from_str("Failed to write to file: ");
                let quoted = debug_quoted(path.as_str());
                text.append(quoted.as_str());
                text
            },
            RunError::PreCheckFailed { hint } => {
                let mut text = String::from_str("Pre-checking for fuzzing failed. Consider run `");
                text.append(hint.as_str());
                text.append("` before fuzzing.");
                text
            },
            RunError::BuildFailed { code } => {
                let mut text = String::from_str(
                    "error building afl instrumented binary, exit code ",
                );
                let shown = code_text(*code);
                text.append(shown.as_str());
                text
            },
            RunError::EngineFailed { fuzzer, code } => {
                let mut text = String::from_str(fuzzer.name());
                text.append(" exited with code ");
                let shown = code_text(*code);
                text.append(shown.as_str());
                text
            },
            RunError::LaunchFailed { fuzzer, stage } => {
                let mut text = if *stage == Stage::Building {
                    String::from_str("Failed to build ")
                } else {
                    String::from_str("Failed to run ")
                };
                text.append(fuzzer.name());
                text
            },
            RunError::OutOfTurn => String::from_str(
                "the run was told of something it had not asked for",
            ),
        }
    }
}

} // verus!
