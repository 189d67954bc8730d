//! The vocabulary of the dispatcher: what is asked of it, what it asks of
//! its caller, what the caller reports, and what it remembers in between.

use crate::command::{Invocation, InvocationView};
use crate::environment::Environment;
use crate::error::{
    outcome_view, ExitStatus, ExitStatusView, IoFailure, IoFailureView, IoKind, OpenError,
    OpenErrorView,
};
use crate::freedesktop::{dbus_io_failure, dbus_to_io_failure, DbusCall, DbusCallView};
use crate::wsl::{CommandOutput, CommandOutputView};
use vstd::prelude::*;

verus! {

/// What to do with a target.
#[derive(Debug, Clone, Copy, PartialEq, Eq, Structural)]
pub enum Operation {
    /// Open it with the program that the system has configured for it.
    Open,
    /// Open it with the browser that the user named.
    OpenBrowser,
    /// Show it, selected, in the file manager.
    Reveal,
}

/// A request: a path or a URI, and what to do with it.
#[derive(Debug, Clone, PartialEq, Eq)]
pub struct OpenRequest {
    pub target: String,
    pub operation: Operation,
}

/// One way of serving a request.
#[derive(Debug, Clone, Copy, PartialEq, Eq, Structural)]
pub enum Mechanism {
    /// The "open" verb of the native shell of Windows, on the path as given.
    ShellExecute,
    /// The same verb on the normalized path.
    ShellExecuteNormalized,
    /// The native "open folder and select item" call, on a worker thread.
    ComReveal,
    /// The launcher of macOS.
    MacOpen,
    /// The launcher of macOS, told to reveal.
    MacReveal,
    /// The viewer of the Windows subsystem.
    WslView,
    /// The desktop's own opener.
    XdgOpen,
    /// The opener script that the caller carries, run by a shell.
    XdgOpenScript,
    /// The Windows file explorer, started and left alone.
    Explorer,
    /// The file manager's interface on the session bus.
    FileManager1,
    /// The desktop portal on the session bus.
    OpenUriPortal,
    /// Opening the directory that holds the target.
    OpenParent,
    /// The browser that the user named, started and left alone.
    Browser,
}

/// Which answer the dispatcher waits for.
#[derive(Debug, Clone, Copy, PartialEq, Eq, Structural)]
pub enum Phase {
    /// The path converter runs.
    Converting,
    /// A program is being started.
    Spawning,
    /// The opener script is being written to the shell.
    Feeding,
    /// The child is being waited for.
    Waiting,
    /// The error stream of the failed child is being read.
    Collecting,
    /// The native shell is being called.
    Executing,
    /// The path is being normalized.
    Normalizing,
    /// The session bus is being connected to.
    Connecting,
    /// The path is being resolved.
    Resolving,
    /// A method call is on the bus.
    Calling,
    /// The target is being opened as a file.
    OpeningFile,
    /// The worker thread is being started.
    StartingWorker,
    /// The worker enters the component apartment.
    Initializing,
    /// The item list is being built.
    CreatingList,
    /// The folder is being opened with the item selected.
    Selecting,
    /// The item list is being released.
    Releasing,
    /// The worker leaves the component apartment.
    Uninitializing,
    /// The worker is being joined.
    Joining,
    /// The request is served; nothing is waited for.
    Finished,
}

/// What the caller is to do next.
#[derive(Debug, PartialEq, Eq)]
pub enum Action {
    /// Run the program to its end and collect what it writes to its output.
    Capture(Invocation),
    /// Start the program.
    Spawn(Invocation),
    /// Write the whole opener script to the input of the child.
    WriteScript,
    /// Wait for the child to end.
    Wait,
    /// Read what the child wrote to its error stream.
    ReadStderr,
    /// Ask the native shell to open the path in the buffer.
    ShellExecute(Vec<u16>),
    /// Normalize the path.
    Normalize(String),
    /// Resolve the path to an absolute one without links.
    Canonicalize(String),
    /// Connect to the session bus.
    DbusConnect,
    /// Make the method call.
    DbusCall(DbusCall),
    /// Open the file, to attach it to the next method call.
    OpenFile(String),
    /// Start the worker thread on which the native calls that follow run.
    StartWorker,
    /// Enter the component apartment.
    ComInitialize,
    /// Build the item list of the path in the buffer.
    CreateItemList(Vec<u16>),
    /// Open the folder of the item in the list, with the item selected.
    SelectItem,
    /// Release the item list.
    FreeItemList,
    /// Leave the component apartment.
    ComUninitialize,
    /// Join the worker thread.
    JoinWorker,
    /// Hand the outcome to whoever made the request.
    Finish(Result<(), OpenError>),
}

/// The mathematical value of an [`Action`].
pub enum ActionView {
    Capture(InvocationView),
    Spawn(InvocationView),
    WriteScript,
    Wait,
    ReadStderr,
    ShellExecute(Seq<u16>),
    Normalize(Seq<char>),
    Canonicalize(Seq<char>),
    DbusConnect,
    DbusCall(DbusCallView),
    OpenFile(Seq<char>),
    StartWorker,
    ComInitialize,
    CreateItemList(Seq<u16>),
    SelectItem,
    FreeItemList,
    ComUninitialize,
    JoinWorker,
    Finish(Result<(), OpenErrorView>),
}

impl View for Action {
    type V = ActionView;

    open spec fn view(&self) -> ActionView {
        match self {
            Action::Capture(invocation) => ActionView::Capture(invocation@),
            Action::Spawn(invocation) => ActionView::Spawn(invocation@),
            Action::WriteScript => ActionView::WriteScript,
            Action::Wait => ActionView::Wait,
            Action::ReadStderr => ActionView::ReadStderr,
            Action::ShellExecute(wide) => ActionView::ShellExecute(wide@),
            Action::Normalize(path) => ActionView::Normalize(path@),
            Action::Canonicalize(path) => ActionView::Canonicalize(path@),
            Action::DbusConnect => ActionView::DbusConnect,
            Action::DbusCall(call) => ActionView::DbusCall(call@),
            Action::OpenFile(path) => ActionView::OpenFile(path@),
            Action::StartWorker => ActionView::StartWorker,
            Action::ComInitialize => ActionView::ComInitialize,
            Action::CreateItemList(wide) => ActionView::CreateItemList(wide@),
            Action::SelectItem => ActionView::SelectItem,
            Action::FreeItemList => ActionView::FreeItemList,
            Action::ComUninitialize => ActionView::ComUninitialize,
            Action::JoinWorker => ActionView::JoinWorker,
            Action::Finish(outcome) => ActionView::Finish(outcome_view(*outcome)),
        }
    }
}

/// What the caller reports of the action it was given.
#[derive(Debug, Clone, PartialEq, Eq)]
pub enum Event {
    /// The action was carried out.
    Done,
    /// The action failed.
    Failed(IoFailure),
    /// The child ended.
    Exited(ExitStatus),
    /// The text that was read from the error stream.
    Text(String),
    /// The program ran to its end.
    Captured(CommandOutput),
    /// The native shell answered. `last_error` is the error code that the
    /// operating system held right after the call.
    ShellExecuted { instance: isize, last_error: i32 },
    /// The normalized or resolved path.
    Path(String),
    /// The session bus answered with an error.
    DbusError(String),
    /// The worker thread ended without a result.
    WorkerPanicked,
}

/// The mathematical value of an [`Event`].
pub enum EventView {
    Done,
    Failed(IoFailureView),
    Exited(ExitStatusView),
    Text(Seq<char>),
    Captured(CommandOutputView),
    ShellExecuted { instance: isize, last_error: i32 },
    Path(Seq<char>),
    DbusError(Seq<char>),
    WorkerPanicked,
}

impl View for Event {
    type V = EventView;

    open spec fn view(&self) -> EventView {
        match self {
            Event::Done => EventView::Done,
            Event::Failed(failure) => EventView::Failed(failure@),
            Event::Exited(status) => EventView::Exited(status@),
            Event::Text(text) => EventView::Text(text@),
            Event::Captured(output) => EventView::Captured(output@),
            Event::ShellExecuted { instance, last_error } => EventView::ShellExecuted {
                instance: *instance,
                last_error: *last_error,
            },
            Event::Path(path) => EventView::Path(path@),
            Event::DbusError(message) => EventView::DbusError(message@),
            Event::WorkerPanicked => EventView::WorkerPanicked,
        }
    }
}

/// What the dispatcher remembers between an action and its answer.
#[derive(Debug, Clone, PartialEq, Eq)]
pub struct State {
    /// The environment that the request is served in.
    pub env: Environment,
    /// The path or URI.
    pub target: String,
    /// The browser that the user named, if any.
    pub browser: Option<String>,
    /// The mechanism that is being tried.
    pub mechanism: Mechanism,
    /// The mechanisms to fall back to, in their order.
    pub remaining: Vec<Mechanism>,
    /// The answer that is waited for.
    pub phase: Phase,
    /// The first failure that was met and is held back.
    pub first_failure: Option<OpenError>,
    /// How the child ended, while its error stream is read.
    pub status: Option<ExitStatus>,
}

/// The mathematical value of a [`State`].
pub struct StateView {
    pub env: Environment,
    pub target: Seq<char>,
    pub browser: Option<Seq<char>>,
    pub mechanism: Mechanism,
    pub remaining: Seq<Mechanism>,
    pub phase: Phase,
    pub first_failure: Option<OpenErrorView>,
    pub status: Option<ExitStatusView>,
}

impl View for State {
    type V = StateView;

    open spec fn view(&self) -> StateView {
        StateView {
            env: self.env,
            target: self.target@,
            browser: self.browser.deep_view(),
            mechanism: self.mechanism,
            remaining: self.remaining@,
            phase: self.phase,
            first_failure: self.first_failure.deep_view(),
            status: self.status.deep_view(),
        }
    }
}

/// One move of the dispatcher: what it remembers, and what it asks for.
#[derive(Debug, PartialEq, Eq)]
pub struct Step {
    pub state: State,
    pub action: Action,
}

/// The mathematical value of a [`Step`].
pub struct StepView {
    pub state: StateView,
    pub action: ActionView,
}

impl View for Step {
    type V = StepView;

    open spec fn view(&self) -> StepView {
        StepView { state: self.state@, action: self.action@ }
    }
}

/// The failure that a worker thread which ended without a result stands for.
pub open spec fn worker_failure() -> IoFailureView {
    IoFailureView {
        kind: IoKind::Other,
        code: None,
        message: "the worker thread ended without a result"@,
    }
}

/// The failure of an event that does not answer the action it follows.
pub open spec fn unexpected_failure() -> IoFailureView {
    IoFailureView {
        kind: IoKind::InvalidData,
        code: None,
        message: "the event does not answer the pending action"@,
    }
}

/// The failure that an event stands for where it is not the answer that was
/// hoped for: the reported failure itself, the error of the session bus by
/// its description, the lost worker, and for any other event the failure of
/// an answer that does not fit.
pub open spec fn failure_of(event: EventView) -> IoFailureView {
    match event {
        EventView::Failed(failure) => failure,
        EventView::DbusError(message) => dbus_io_failure(message),
        EventView::WorkerPanicked => worker_failure(),
        _ => unexpected_failure(),
    }
}

impl Event {
    /// The failure that this event stands for where a different answer was
    /// hoped for.
    pub fn into_failure(self) -> (r: IoFailure)
        ensures
            r@ == failure_of(self@),
    {
        match self {
            Event::Failed(failure) => failure,
            Event::DbusError(message) => dbus_to_io_failure(message),
            Event::WorkerPanicked => IoFailure::new(
                IoKind::Other,
                "the worker thread ended without a result",
            ),
            _ => IoFailure::new(IoKind::InvalidData, "the event does not answer the pending action"),
        }
    }
}

} // verus!
