//! What a dispatch leaves behind: the outcome of the command that was run
//! with a line as its argument, and the status lines that tell the operator
//! of it. Running the command is the caller's part.

use vstd::prelude::*;
use vstd::string::*;
use crate::text::{signed_decimal, signed_decimal_text};

verus! {

/// How a launched command ended.
#[derive(Debug, Clone, Copy, PartialEq, Eq, Structural)]
pub enum ExitStatus {
    /// The command ran to its end and returned `code`.
    Exited { code: i32 },
    /// The command was ended from outside, by a signal, and returned no code.
    Signaled,
}

/// Why a dispatch did not run the command.
#[derive(Debug, Clone, PartialEq, Eq)]
pub enum DispatchError {
    /// The command could not be started at all; `cause` says why.
    LaunchFailed { cause: String },
}

/// The outcome of one dispatch.
#[derive(Debug, Clone, PartialEq, Eq)]
pub enum DispatchOutcome {
    /// The command was started and has ended with `status`. A status other
    /// than success is no error of the dispatch.
    Completed { status: ExitStatus },
    /// The command was not started.
    Failed { error: DispatchError },
}

/// A dispatch error, with its text as characters.
pub enum DispatchErrorView {
    LaunchFailed { cause: Seq<char> },
}

impl View for DispatchError {
    type V = DispatchErrorView;

    open spec fn view(&self) -> DispatchErrorView {
        match self {
            DispatchError::LaunchFailed { cause } => DispatchErrorView::LaunchFailed {
                cause: cause@,
            },
        }
    }
}

/// A dispatch outcome, with its text as characters.
pub enum DispatchOutcomeView {
    Completed { status: ExitStatus },
    Failed { error: DispatchErrorView },
}

impl View for DispatchOutcome {
    type V = DispatchOutcomeView;

    open spec fn view(&self) -> DispatchOutcomeView {
        match self {
            DispatchOutcome::Completed { status } => DispatchOutcomeView::Completed {
                status: *status,
            },
            DispatchOutcome::Failed { error } => DispatchOutcomeView::Failed { error: error@ },
        }
    }
}

/// The text of an exit status.
pub open spec fn status_text(status: ExitStatus) -> Seq<char> {
    match status {
        ExitStatus::Exited { code } => "exit status: "@ + signed_decimal(code as int),
        ExitStatus::Signaled => "terminated by signal"@,
    }
}

/// The line shown before the command is launched with `argument`.
pub open spec fn open_line_text(argument: Seq<char>) -> Seq<char> {
    "* OPEN: "@ + argument
}

/// The line shown after the command that was launched with `argument` has
/// ended with `status`.
pub open spec fn done_line_text(argument: Seq<char>, status: ExitStatus) -> Seq<char> {
    "** DONE "@ + argument + ": "@ + status_text(status)
}

/// The line that reports a failure described by `message`.
pub open spec fn error_line_text(message: Seq<char>) -> Seq<char> {
    "Error: "@ + message
}

/// The line shown once a dispatch with `argument` has come back.
pub open spec fn outcome_line_text(argument: Seq<char>, outcome: DispatchOutcomeView) -> Seq<
    char,
> {
    match outcome {
        DispatchOutcomeView::Completed { status } => done_line_text(argument, status),
        DispatchOutcomeView::Failed { error } => error_line_text(launch_error_text(error)),
    }
}

/// What a dispatch error says of itself.
pub open spec fn launch_error_text(error: DispatchErrorView) -> Seq<char> {
    match error {
        DispatchErrorView::LaunchFailed { cause } => cause,
    }
}

impl DispatchError {
    /// Writes what the error says of itself: the cause that it carries.
    pub fn message(&self) -> (text: String)
        ensures
            text@ == launch_error_text(self@),
    {
        match self {
            DispatchError::LaunchFailed { cause } => cause.clone(),
        }
    }
}

impl ExitStatus {
    /// Whether the command ended with code 0.
    pub open spec fn is_success(self) -> bool {
        self == (ExitStatus::Exited { code: 0 })
    }

    /// Whether the command ended with code 0.
    pub fn success(&self) -> (ok: bool)
        ensures
            ok == self.is_success(),
    {
        match self {
            ExitStatus::Exited { code } => *code == 0,
            ExitStatus::Signaled => false,
        }
    }

    /// Writes the status as the status line shows it.
    pub fn describe(&self) -> (text: String)
        ensures
            text@ == status_text(*self),
    {
        match self {
            ExitStatus::Exited { code } => {
                let digits = signed_decimal_text(*code as i64);
                String::from_str("exit status: ").concat(digits.as_str())
            },
            ExitStatus::Signaled => String::from_str("terminated by signal"),
        }
    }
}

/// Writes the line shown before the command is launched with `argument`.
pub fn open_line(argument: &str) -> (line: String)
    ensures
        line@ == open_line_text(argument@),
{
    String::from_str("* OPEN: ").concat(argument)
}

/// Writes the line shown after the command that was launched with
/// `argument` has ended with `status`.
pub fn done_line(argument: &str, status: ExitStatus) -> (line: String)
    ensures
        line@ == done_line_text(argument@, status),
{
    let status_part = status.describe();
    let line = String::from_str("** DONE ").concat(argument).concat(": ").concat(
        status_part.as_str(),
    );
    line
}

/// Writes the line that reports a failure described by `message`.
pub fn error_line(message: &str) -> (line: String)
    ensures
        line@ == error_line_text(message@),
{
    String::from_str("Error: ").concat(message)
}

/// Writes the line shown once a dispatch with `argument` has come back: the
/// completion with its status, or the reason why the command did not start.
pub fn outcome_line(argument: &str, outcome: &DispatchOutcome) -> (line: String)
    ensures
        line@ == outcome_line_text(argument@, outcome@),
{
    match outcome {
        DispatchOutcome::Completed { status } => done_line(argument, *status),
        DispatchOutcome::Failed { error } => error_line(error.message().as_str()),
    }
}

} // verus!
