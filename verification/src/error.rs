//! What can go wrong, and how it is told.

use vstd::prelude::*;
use vstd::string::StringExecFns;

verus! {

/// An error of a conversion or of a batch.
#[derive(Clone, Debug, PartialEq, Eq)]
pub enum AppError {
    /// Reading, writing or making a directory failed; holds the cause.
    Io(String),
    /// Walking the directory tree failed; holds the cause.
    Walkdir(String),
    /// The compiler is not installed where the system looks for programs.
    ToolNotFound,
    /// The compiler ran and reported an error; holds the document's path and what the compiler
    /// wrote.
    CompilerFailure { input: String, diagnostics: String },
    /// The path given as a directory is none.
    InvalidInputPath { path: String },
}

/// What an [`AppError`] holds, as sequences of characters.
pub enum AppErrorModel {
    Io(Seq<char>),
    Walkdir(Seq<char>),
    ToolNotFound,
    CompilerFailure { input: Seq<char>, diagnostics: Seq<char> },
    InvalidInputPath { path: Seq<char> },
}

impl View for AppError {
    type V = AppErrorModel;

    open spec fn view(&self) -> AppErrorModel {
        match *self {
            AppError::Io(cause) => AppErrorModel::Io(cause@),
            AppError::Walkdir(cause) => AppErrorModel::Walkdir(cause@),
            AppError::ToolNotFound => AppErrorModel::ToolNotFound,
            AppError::CompilerFailure { input, diagnostics } => AppErrorModel::CompilerFailure {
                input: input@,
                diagnostics: diagnostics@,
            },
            AppError::InvalidInputPath { path } => AppErrorModel::InvalidInputPath { path: path@ },
        }
    }
}

/// The message of an error. That of a missing compiler names the tool and says what to do;
/// that of a failed compilation names the document and ends with what the compiler wrote.
pub open spec fn message_of(error: AppErrorModel) -> Seq<char> {
    match error {
        AppErrorModel::Io(cause) => "I/O Error: "@ + cause,
        AppErrorModel::Walkdir(cause) => "Failed to walk directory: "@ + cause,
        AppErrorModel::ToolNotFound =>
            "Conversion failed: The 'typst' command was not found.\nPlease ensure Typst is installed and in your system's PATH."@,
        AppErrorModel::CompilerFailure { input, diagnostics } =>
            "Conversion failed: Typst compilation failed for "@ + input + ":\n"@ + diagnostics,
        AppErrorModel::InvalidInputPath { path } => "Invalid input path: "@ + path,
    }
}

impl AppError {
    /// The message of this error.
    pub fn message(&self) -> (message: String)
        ensures
            message@ == message_of(self@),
    {
        match self {
            AppError::Io(cause) => String::from_str("I/O Error: ").concat(cause.as_str()),
            AppError::Walkdir(cause) => String::from_str("Failed to walk directory: ").concat(
                cause.as_str(),
            ),
            AppError::ToolNotFound => String::from_str(
                "Conversion failed: The 'typst' command was not found.\nPlease ensure Typst is installed and in your system's PATH.",
            ),
            AppError::CompilerFailure { input, diagnostics } => {
                let mut message = String::from_str(
                    "Conversion failed: Typst compilation failed for ",
                );
                message.append(input.as_str());
                message.append(":\n");
                message.append(diagnostics.as_str());
                message
            },
            AppError::InvalidInputPath { path } => String::from_str("Invalid input path: ").concat(
                path.as_str(),
            ),
        }
    }

    /// A copy of this error.
    pub fn duplicate(&self) -> (copy: AppError)
        ensures
            copy@ == self@,
    {
        match self {
            AppError::Io(cause) => AppError::Io(cause.clone()),
            AppError::Walkdir(cause) => AppError::Walkdir(cause.clone()),
            AppError::ToolNotFound => AppError::ToolNotFound,
            AppError::CompilerFailure { input, diagnostics } => AppError::CompilerFailure {
                input: input.clone(),
                diagnostics: diagnostics.clone(),
            },
            AppError::InvalidInputPath { path } => AppError::InvalidInputPath { path: path.clone() },
        }
    }
}

/// The message of a missing compiler is never the message of an I/O failure, whatever the
/// cause of that failure.
pub proof fn missing_tool_is_no_io_error(cause: Seq<char>)
    ensures
        message_of(AppErrorModel::ToolNotFound) != message_of(AppErrorModel::Io(cause)),
{
    reveal_strlit("I/O Error: ");
    reveal_strlit(
        "Conversion failed: The 'typst' command was not found.\nPlease ensure Typst is installed and in your system's PATH.",
    );
    let tool = message_of(AppErrorModel::ToolNotFound);
    let io = message_of(AppErrorModel::Io(cause));
    assert(tool[0] == 'C');
    assert(io[0] == 'I');
}

} // verus!
