//! The failures a compile request can end in.

use crate::text::{decimal, render_decimal};
use vstd::prelude::*;
use vstd::string::*;

verus! {

/// Why a compile request produced no response.
///
/// Every variant but `CompilerExecutionTimedOut` is an infrastructure
/// failure: the sandbox is broken, not the submitted code. Code that does
/// not compile is no error at all; it ends in a response whose `success`
/// is `false`.
#[derive(Clone, Debug, PartialEq, Eq)]
pub enum Error {
    /// The scratch directory could not be allocated.
    UnableToCreateTempDir { source: String },
    /// The output directory inside the scratch directory could not be made.
    UnableToCreateOutputDir { source: String },
    /// The output directory could not be opened up to other users.
    UnableToSetOutputPermissions { source: String },
    /// The source text could not be written to the input file.
    UnableToCreateSourceFile { source: String },
    /// The input file could not be opened up to other users.
    UnableToSetSourcePermissions { source: String },
    /// The isolation runtime could not be launched or awaited.
    UnableToExecuteCompiler { source: String },
    /// The process outlived the hard deadline and was killed.
    CompilerExecutionTimedOut { timeout_ms: u64 },
    /// The artifact exists but could not be opened.
    UnableToReadOutput { source: String },
    /// A captured output stream is not UTF-8 text.
    OutputNotUtf8 { source: String },
    /// The artifact is absent. The engine never ends in this error: a
    /// missing artifact is folded into the response as a note on `stderr`.
    OutputMissing,
}

/// An [`Error`] with its texts as character sequences.
pub enum ErrorView {
    UnableToCreateTempDir { source: Seq<char> },
    UnableToCreateOutputDir { source: Seq<char> },
    UnableToSetOutputPermissions { source: Seq<char> },
    UnableToCreateSourceFile { source: Seq<char> },
    UnableToSetSourcePermissions { source: Seq<char> },
    UnableToExecuteCompiler { source: Seq<char> },
    CompilerExecutionTimedOut { timeout_ms: u64 },
    UnableToReadOutput { source: Seq<char> },
    OutputNotUtf8 { source: Seq<char> },
    OutputMissing,
}

impl View for Error {
    type V = ErrorView;

    open spec fn view(&self) -> ErrorView {
        match *self {
            Error::UnableToCreateTempDir { source } => ErrorView::UnableToCreateTempDir {
                source: source@,
            },
            Error::UnableToCreateOutputDir { source } => ErrorView::UnableToCreateOutputDir {
                source: source@,
            },
            Error::UnableToSetOutputPermissions {
                source,
            } => ErrorView::UnableToSetOutputPermissions { source: source@ },
            Error::UnableToCreateSourceFile { source } => ErrorView::UnableToCreateSourceFile {
                source: source@,
            },
            Error::UnableToSetSourcePermissions {
                source,
            } => ErrorView::UnableToSetSourcePermissions { source: source@ },
            Error::UnableToExecuteCompiler { source } => ErrorView::UnableToExecuteCompiler {
                source: source@,
            },
            Error::CompilerExecutionTimedOut {
                timeout_ms,
            } => ErrorView::CompilerExecutionTimedOut { timeout_ms },
            Error::UnableToReadOutput { source } => ErrorView::UnableToReadOutput {
                source: source@,
            },
            Error::OutputNotUtf8 { source } => ErrorView::OutputNotUtf8 { source: source@ },
            Error::OutputMissing => ErrorView::OutputMissing,
        }
    }
}

impl ErrorView {
    /// Whether the error reports the hard deadline, as opposed to a broken
    /// sandbox.
    pub open spec fn is_timeout(self) -> bool {
        self is CompilerExecutionTimedOut
    }

    /// The human-readable line for this error.
    pub open spec fn message(self) -> Seq<char> {
        match self {
            ErrorView::UnableToCreateTempDir { source } => {
                "Unable to create temporary directory: "@ + source
            },
            ErrorView::UnableToCreateOutputDir { source } => {
                "Unable to create output directory: "@ + source
            },
            ErrorView::UnableToSetOutputPermissions { source } => {
                "Unable to set permissions for output directory: "@ + source
            },
            ErrorView::UnableToCreateSourceFile { source } => {
                "Unable to create source file: "@ + source
            },
            ErrorView::UnableToSetSourcePermissions { source } => {
                "Unable to set permissions for source file: "@ + source
            },
            ErrorView::UnableToExecuteCompiler { source } => {
                "Unable to execute the compiler: "@ + source
            },
            ErrorView::CompilerExecutionTimedOut { timeout_ms } => {
                "Compiler execution took longer than "@ + decimal(timeout_ms as nat) + " ms"@
            },
            ErrorView::UnableToReadOutput { source } => "Unable to read output file: "@ + source,
            ErrorView::OutputNotUtf8 { source } => "Output was not valid UTF-8: "@ + source,
            ErrorView::OutputMissing => "Output was missing"@,
        }
    }
}

/// `lead` followed by `cause`.
fn with_cause(lead: &str, cause: &str) -> (text: String)
    ensures
        text@ == lead@ + cause@,
{
    let mut text = String::from_str(lead);
    text.append(cause);
    text
}

impl Error {
    /// Whether the error reports the hard deadline, as opposed to a broken
    /// sandbox.
    pub fn is_timeout(&self) -> (b: bool)
        ensures
            b == self@.is_timeout(),
    {
        match self {
            Error::CompilerExecutionTimedOut { .. } => true,
            _ => false,
        }
    }

    /// The human-readable line for this error.
    pub fn message(&self) -> (text: String)
        ensures
            text@ == self@.message(),
    {
        match self {
            Error::UnableToCreateTempDir { source } => {
                with_cause("Unable to create temporary directory: ", source.as_str())
            },
            Error::UnableToCreateOutputDir { source } => {
                with_cause("Unable to create output directory: ", source.as_str())
            },
            Error::UnableToSetOutputPermissions { source } => {
                with_cause("Unable to set permissions for output directory: ", source.as_str())
            },
            Error::UnableToCreateSourceFile { source } => {
                with_cause("Unable to create source file: ", source.as_str())
            },
            Error::UnableToSetSourcePermissions { source } => {
                with_cause("Unable to set permissions for source file: ", source.as_str())
            },
            Error::UnableToExecuteCompiler { source } => {
                with_cause("Unable to execute the compiler: ", source.as_str())
            },
            Error::CompilerExecutionTimedOut { timeout_ms } => {
                let digits = render_decimal(*timeout_ms);
                let mut text = with_cause(
                    "Compiler execution took longer than ",
                    digits.as_str(),
                );
                text.append(" ms");
                text
            },
            Error::UnableToReadOutput { source } => {
                with_cause("Unable to read output file: ", source.as_str())
            },
            Error::OutputNotUtf8 { source } => {
                with_cause("Output was not valid UTF-8: ", source.as_str())
            },
            Error::OutputMissing => String::from_str("Output was missing"),
        }
    }
}

} // verus!
