//! The failures that opening or revealing a target can end in.

use crate::text::{trim, trimmed};
use vstd::prelude::*;
use vstd::string::StringExecFns;

verus! {

/// The class of an input/output failure.
#[derive(Debug, Clone, Copy, PartialEq, Eq, Structural)]
pub enum IoKind {
    /// The program, file or directory was not found.
    NotFound,
    /// The operating system denied access.
    PermissionDenied,
    /// The target cannot be handed to the mechanism as it is written.
    InvalidInput,
    /// What was reported back does not fit what was asked for.
    InvalidData,
    /// Any other failure.
    Other,
}

/// An input/output failure: a process that could not be started, a native
/// call that failed, a path that could not be resolved or converted, a
/// message that the session bus did not deliver.
#[derive(Debug, Clone, PartialEq, Eq)]
pub struct IoFailure {
    /// The class of the failure.
    pub kind: IoKind,
    /// The error code of the operating system, where the failure has one.
    pub code: Option<i32>,
    /// A description for people.
    pub message: String,
}

/// The mathematical value of an [`IoFailure`].
pub struct IoFailureView {
    pub kind: IoKind,
    pub code: Option<i32>,
    pub message: Seq<char>,
}

impl View for IoFailure {
    type V = IoFailureView;

    open spec fn view(&self) -> IoFailureView {
        IoFailureView { kind: self.kind, code: self.code, message: self.message@ }
    }
}

impl DeepView for IoFailure {
    type V = IoFailureView;

    open spec fn deep_view(&self) -> IoFailureView {
        self@
    }
}

impl IoFailure {
    /// A failure of the given class that carries no operating system code.
    pub fn new(kind: IoKind, message: &str) -> (r: IoFailure)
        ensures
            r@ == (IoFailureView { kind, code: None, message: message@ }),
    {
        IoFailure { kind, code: None, message: String::from_str(message) }
    }

    /// The failure that the operating system reported under `code`.
    pub fn from_os_code(code: i32) -> (r: IoFailure)
        ensures
            r@ == os_failure(code),
    {
        IoFailure {
            kind: IoKind::Other,
            code: Some(code),
            message: String::from_str("the operating system reported an error"),
        }
    }

    /// A copy of this failure.
    pub fn duplicate(&self) -> (r: IoFailure)
        ensures
            r@ == self@,
    {
        IoFailure { kind: self.kind, code: self.code, message: self.message.clone() }
    }
}

/// The failure that stands for the operating system's error `code`.
pub open spec fn os_failure(code: i32) -> IoFailureView {
    IoFailureView {
        kind: IoKind::Other,
        code: Some(code),
        message: "the operating system reported an error"@,
    }
}

/// How a child process ended.
#[derive(Debug, Clone, PartialEq, Eq)]
pub struct ExitStatus {
    /// The exit code; `None` where the process was ended by a signal.
    pub code: Option<i32>,
    /// The status as the operating system words it.
    pub text: String,
}

/// The mathematical value of an [`ExitStatus`].
pub struct ExitStatusView {
    pub code: Option<i32>,
    pub text: Seq<char>,
}

impl ExitStatusView {
    /// The process ended with exit code zero.
    pub open spec fn success(self) -> bool {
        self.code == Some(0i32)
    }
}

impl View for ExitStatus {
    type V = ExitStatusView;

    open spec fn view(&self) -> ExitStatusView {
        ExitStatusView { code: self.code, text: self.text@ }
    }
}

impl DeepView for ExitStatus {
    type V = ExitStatusView;

    open spec fn deep_view(&self) -> ExitStatusView {
        self@
    }
}

impl ExitStatus {
    /// Whether the process ended with exit code zero.
    pub fn success(&self) -> (r: bool)
        ensures
            r == self@.success(),
    {
        match self.code {
            Some(code) => code == 0,
            None => false,
        }
    }

    /// A copy of this status.
    pub fn duplicate(&self) -> (r: ExitStatus)
        ensures
            r@ == self@,
    {
        ExitStatus { code: self.code, text: self.text.clone() }
    }
}

/// The failure to open or reveal a target.
#[derive(Debug, Clone, PartialEq, Eq)]
pub enum OpenError {
    /// An input/output failure.
    Io(IoFailure),
    /// A command ran and ended unsuccessfully.
    ExitStatus {
        /// A text that identifies the command.
        cmd: &'static str,
        /// How the process ended.
        status: ExitStatus,
        /// What the process wrote to its error stream, without the
        /// whitespace around it.
        stderr: String,
    },
}

/// The mathematical value of an [`OpenError`].
pub enum OpenErrorView {
    Io(IoFailureView),
    ExitStatus { cmd: Seq<char>, status: ExitStatusView, stderr: Seq<char> },
}

impl View for OpenError {
    type V = OpenErrorView;

    open spec fn view(&self) -> OpenErrorView {
        match self {
            OpenError::Io(failure) => OpenErrorView::Io(failure@),
            OpenError::ExitStatus { cmd, status, stderr } => OpenErrorView::ExitStatus {
                cmd: cmd@,
                status: status@,
                stderr: stderr@,
            },
        }
    }
}

impl DeepView for OpenError {
    type V = OpenErrorView;

    open spec fn deep_view(&self) -> OpenErrorView {
        self@
    }
}

/// The mathematical value of the outcome of a request.
pub open spec fn outcome_view(outcome: Result<(), OpenError>) -> Result<(), OpenErrorView> {
    match outcome {
        Ok(_) => Ok(()),
        Err(error) => Err(error@),
    }
}

/// The text that describes `error`: a fixed line for an input/output failure;
/// for a command, its name and its status, followed by what it wrote to its
/// error stream where that is more than whitespace.
pub open spec fn message_text(error: OpenErrorView) -> Seq<char> {
    match error {
        OpenErrorView::Io(_) => "IO error"@,
        OpenErrorView::ExitStatus { cmd, status, stderr } => {
            let head = "command '"@ + cmd + "' did not execute successfully; "@ + status.text;
            if trimmed(stderr).len() > 0 {
                head + "\ncommand stderr:\n"@ + trimmed(stderr)
            } else {
                head
            }
        },
    }
}

impl OpenError {
    /// The description of this error.
    pub fn message(&self) -> (text: String)
        ensures
            text@ == message_text(self@),
    {
        match self {
            OpenError::Io(_) => String::from_str("IO error"),
            OpenError::ExitStatus { cmd, status, stderr } => {
                let mut text = String::from_str("command '");
                text.append(cmd);
                text.append("' did not execute successfully; ");
                text.append(status.text.as_str());
                let shown = trim(stderr.as_str());
                if !shown.as_str().is_empty() {
                    text.append("\ncommand stderr:\n");
                    text.append(shown.as_str());
                }
                text
            },
        }
    }

    /// The input/output failure behind this error, where there is one.
    pub fn source(&self) -> (r: Option<&IoFailure>)
        ensures
            match *self {
                OpenError::Io(failure) => r == Some(&failure),
                OpenError::ExitStatus { .. } => r is None,
            },
    {
        match self {
            OpenError::Io(failure) => Some(failure),
            OpenError::ExitStatus { .. } => None,
        }
    }

    /// A copy of this error.
    pub fn duplicate(&self) -> (r: OpenError)
        ensures
            r@ == self@,
    {
        match self {
            OpenError::Io(failure) => OpenError::Io(failure.duplicate()),
            OpenError::ExitStatus { cmd, status, stderr } => OpenError::ExitStatus {
                cmd: *cmd,
                status: status.duplicate(),
                stderr: stderr.clone(),
            },
        }
    }
}

} // verus!
