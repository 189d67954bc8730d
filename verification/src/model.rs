//! The dispatcher as mathematics: the step that follows each state and
//! event, over the values of the exchanged data.

use crate::command::{
    browser, child_outcome, internal_xdg_open, macos_open, macos_reveal, system_xdg_open,
    windows_explorer, wslpath, wslview, InvocationView,
};
use crate::environment::Environment;
use crate::error::{IoFailureView, OpenErrorView};
use crate::freedesktop::{open_directory, show_items, uri_of};
use crate::machine::{
    failure_of, unexpected_failure, ActionView, EventView, Mechanism, Operation, Phase, StateView,
    StepView,
};
use crate::paths::{containing_directory, parent_of};
use crate::strategy::strategy_for;
use crate::text::has_suffix;
use crate::win32::{shell_outcome, wide_path};
use crate::wsl::windows_path;
use vstd::prelude::*;

verus! {

/// The name under which a mechanism's command appears in a failure.
pub open spec fn mechanism_name(mechanism: Mechanism) -> Seq<char> {
    match mechanism {
        Mechanism::ShellExecute => "ShellExecuteW"@,
        Mechanism::ShellExecuteNormalized => "ShellExecuteW"@,
        Mechanism::ComReveal => "SHOpenFolderAndSelectItems"@,
        Mechanism::MacOpen => "open"@,
        Mechanism::MacReveal => "open"@,
        Mechanism::WslView => "wslview"@,
        Mechanism::XdgOpen => "xdg-open"@,
        Mechanism::XdgOpenScript => "xdg-open (internal)"@,
        Mechanism::Explorer => "explorer.exe"@,
        Mechanism::FileManager1 => "org.freedesktop.FileManager1"@,
        Mechanism::OpenUriPortal => "org.freedesktop.portal.OpenURI"@,
        Mechanism::OpenParent => "xdg-open"@,
        Mechanism::Browser => "browser"@,
    }
}

/// The program of a mechanism is started and not waited for.
pub open spec fn detached(mechanism: Mechanism) -> bool {
    mechanism == Mechanism::Explorer || mechanism == Mechanism::Browser
}

/// The program of a mechanism reads the opener script from its input.
pub open spec fn feeds_script(mechanism: Mechanism) -> bool {
    mechanism == Mechanism::XdgOpenScript
}

/// The program of a mechanism has its error stream piped, to be read where
/// it fails.
pub open spec fn pipes_stderr(mechanism: Mechanism) -> bool {
    mechanism == Mechanism::MacOpen || mechanism == Mechanism::MacReveal || mechanism
        == Mechanism::WslView
}

/// A mechanism talks to the session bus.
pub open spec fn uses_bus(mechanism: Mechanism) -> bool {
    mechanism == Mechanism::FileManager1 || mechanism == Mechanism::OpenUriPortal
}

/// The path is first put to the path converter: always for the two Windows
/// programs, and for the browser where the environment is Linux on a Windows
/// kernel and the browser's name ends in `.exe`.
pub open spec fn needs_conversion(
    env: Environment,
    mechanism: Mechanism,
    program: Option<Seq<char>>,
) -> bool {
    ||| mechanism == Mechanism::WslView
    ||| mechanism == Mechanism::Explorer
    ||| (mechanism == Mechanism::Browser && env == Environment::LinuxWsl && program is Some
        && has_suffix(program->0, ".exe"@))
}

/// The name of the browser; empty where none was named.
pub open spec fn browser_name(program: Option<Seq<char>>) -> Seq<char> {
    match program {
        Some(name) => name,
        None => Seq::empty(),
    }
}

/// The program that a mechanism starts.
pub open spec fn invocation_for(
    mechanism: Mechanism,
    target: Seq<char>,
    program: Option<Seq<char>>,
    converted: Option<Seq<char>>,
) -> InvocationView {
    match mechanism {
        Mechanism::MacOpen => macos_open(target),
        Mechanism::MacReveal => macos_reveal(target),
        Mechanism::WslView => wslview(target, converted),
        Mechanism::XdgOpenScript => internal_xdg_open(target),
        Mechanism::Explorer => windows_explorer(target, converted),
        Mechanism::Browser => browser(browser_name(program), target, converted),
        _ => system_xdg_open(target),
    }
}

/// The mechanisms that are left once those that need the session bus are
/// taken off the front.
pub open spec fn off_bus(remaining: Seq<Mechanism>) -> Seq<Mechanism>
    decreases remaining.len(),
{
    if remaining.len() > 0 && uses_bus(remaining[0]) {
        off_bus(remaining.drop_first())
    } else {
        remaining
    }
}

/// `state` waiting in `phase` for the answer to `action`.
pub open spec fn pending(state: StateView, phase: Phase, action: ActionView) -> StepView {
    StepView { state: StateView { phase, ..state }, action }
}

/// `state`, served with `outcome`.
pub open spec fn finish(state: StateView, outcome: Result<(), OpenErrorView>) -> StepView {
    StepView {
        state: StateView { phase: Phase::Finished, ..state },
        action: ActionView::Finish(outcome),
    }
}

/// `state` holding back `failure`, unless it holds an earlier one.
pub open spec fn record(state: StateView, failure: OpenErrorView) -> StateView {
    StateView {
        first_failure: match state.first_failure {
            Some(first) => Some(first),
            None => Some(failure),
        },
        ..state
    }
}

/// The outcome that `state` holds: the failure that it holds back, or
/// success.
pub open spec fn held_outcome(state: StateView) -> Result<(), OpenErrorView> {
    match state.first_failure {
        Some(failure) => Err(failure),
        None => Ok(()),
    }
}

/// The failure to report once no mechanism is left. The retry of the native
/// shell reports the failure of the first attempt; every other mechanism
/// reports its own.
pub open spec fn surfaced(state: StateView, failure: OpenErrorView) -> OpenErrorView {
    if state.mechanism == Mechanism::ShellExecuteNormalized && state.first_failure is Some {
        state.first_failure->0
    } else {
        failure
    }
}

/// The state before anything was tried: the first mechanism of the strategy
/// is current, the others wait.
pub open spec fn initial(
    env: Environment,
    operation: Operation,
    target: Seq<char>,
    program: Option<Seq<char>>,
) -> StateView {
    StateView {
        env,
        target,
        browser: program,
        mechanism: strategy_for(env, operation)[0],
        remaining: strategy_for(env, operation).drop_first(),
        phase: Phase::Finished,
        first_failure: None,
        status: None,
    }
}

/// The first step of the current mechanism.
pub open spec fn begin(state: StateView) -> StepView
    decreases state.remaining.len(), 1nat,
{
    match state.mechanism {
        Mechanism::ShellExecute => match wide_path(state.target) {
            Ok(wide) => pending(state, Phase::Executing, ActionView::ShellExecute(wide)),
            Err(failure) => fall_back(state, OpenErrorView::Io(failure)),
        },
        Mechanism::ShellExecuteNormalized => pending(
            state,
            Phase::Normalizing,
            ActionView::Normalize(state.target),
        ),
        Mechanism::ComReveal => pending(state, Phase::StartingWorker, ActionView::StartWorker),
        Mechanism::FileManager1 => pending(state, Phase::Connecting, ActionView::DbusConnect),
        Mechanism::OpenUriPortal => pending(
            state,
            Phase::OpeningFile,
            ActionView::OpenFile(state.target),
        ),
        Mechanism::OpenParent => pending(
            state,
            Phase::Resolving,
            ActionView::Canonicalize(state.target),
        ),
        _ => if needs_conversion(state.env, state.mechanism, state.browser) {
            pending(state, Phase::Converting, ActionView::Capture(wslpath(state.target)))
        } else {
            pending(
                state,
                Phase::Spawning,
                ActionView::Spawn(
                    invocation_for(state.mechanism, state.target, state.browser, None),
                ),
            )
        },
    }
}

/// The step after the current mechanism has failed with `failure` and may be
/// replaced: the first step of the next mechanism where one is left, with the
/// failure held back unless an earlier one is; else the end, with the
/// failure to report.
pub open spec fn fall_back(state: StateView, failure: OpenErrorView) -> StepView
    decreases state.remaining.len(), 0nat,
{
    if state.remaining.len() > 0 {
        begin(
            StateView {
                mechanism: state.remaining[0],
                remaining: state.remaining.drop_first(),
                status: None,
                ..record(state, failure)
            },
        )
    } else {
        finish(state, Err(surfaced(state, failure)))
    }
}

/// The first step of a request to open `target`.
pub open spec fn open_model(env: Environment, target: Seq<char>) -> StepView {
    begin(initial(env, Operation::Open, target, None))
}

/// The first step of a request to reveal `target`.
pub open spec fn reveal_model(env: Environment, target: Seq<char>) -> StepView {
    begin(initial(env, Operation::Reveal, target, None))
}

/// The first step of a request to open `target` in a browser: with the
/// browser that the user named, and without one as any request to open.
pub open spec fn browser_model(
    env: Environment,
    program: Option<Seq<char>>,
    target: Seq<char>,
) -> StepView {
    match program {
        Some(name) => begin(initial(env, Operation::OpenBrowser, target, Some(name))),
        None => open_model(env, target),
    }
}

/// The first step of a request.
pub open spec fn dispatch_model(
    env: Environment,
    operation: Operation,
    target: Seq<char>,
    program: Option<Seq<char>>,
) -> StepView {
    match operation {
        Operation::Open => open_model(env, target),
        Operation::OpenBrowser => browser_model(env, program, target),
        Operation::Reveal => reveal_model(env, target),
    }
}

/// The step that degrades a reveal to opening the directory that holds the
/// target, from what resolving the target's path gave: a request to open the
/// parent of the resolved path, or the end with the failure to resolve.
pub open spec fn fallback_model(
    state: StateView,
    canonical: Result<Seq<char>, IoFailureView>,
) -> StepView {
    match canonical {
        Ok(path) => open_model(state.env, containing_directory(parent_of(path))),
        Err(failure) => finish(state, Err(OpenErrorView::Io(failure))),
    }
}

/// What resolving a path gave, read from the event that answers it.
pub open spec fn resolved(event: EventView) -> Result<Seq<char>, IoFailureView> {
    match event {
        EventView::Path(path) => Ok(path),
        _ => Err(failure_of(event)),
    }
}

/// The step after the worker's native calls met `failure` in `state`: on to
/// `phase` and `action`, with the failure held back.
pub open spec fn unwind(
    state: StateView,
    failure: IoFailureView,
    phase: Phase,
    action: ActionView,
) -> StepView {
    pending(record(state, OpenErrorView::Io(failure)), phase, action)
}

/// The step that follows `event` in `state`.
pub open spec fn transition(state: StateView, event: EventView) -> StepView {
    let failure = failure_of(event);
    let error = OpenErrorView::Io(failure);
    match state.phase {
        Phase::Converting => {
            let converted = match event {
                EventView::Captured(output) => windows_path(Some(output)),
                _ => None,
            };
            pending(
                state,
                Phase::Spawning,
                ActionView::Spawn(
                    invocation_for(state.mechanism, state.target, state.browser, converted),
                ),
            )
        },
        Phase::Spawning => match event {
            EventView::Done => if detached(state.mechanism) {
                finish(state, Ok(()))
            } else if feeds_script(state.mechanism) {
                pending(state, Phase::Feeding, ActionView::WriteScript)
            } else {
                pending(state, Phase::Waiting, ActionView::Wait)
            },
            _ => fall_back(state, error),
        },
        Phase::Feeding => match event {
            EventView::Done => pending(state, Phase::Waiting, ActionView::Wait),
            _ => finish(state, Err(error)),
        },
        Phase::Waiting => match event {
            EventView::Exited(status) => if status.success() {
                finish(state, Ok(()))
            } else if pipes_stderr(state.mechanism) {
                pending(
                    StateView { status: Some(status), ..state },
                    Phase::Collecting,
                    ActionView::ReadStderr,
                )
            } else {
                finish(state, child_outcome(mechanism_name(state.mechanism), status, None))
            },
            _ => finish(state, Err(error)),
        },
        Phase::Collecting => match state.status {
            Some(status) => finish(
                state,
                child_outcome(
                    mechanism_name(state.mechanism),
                    status,
                    match event {
                        EventView::Text(text) => Some(text),
                        _ => None,
                    },
                ),
            ),
            None => finish(state, Err(OpenErrorView::Io(unexpected_failure()))),
        },
        Phase::Executing => match event {
            EventView::ShellExecuted { instance, last_error } => match shell_outcome(
                instance,
                last_error,
            ) {
                Ok(_) => finish(state, Ok(())),
                Err(refusal) => fall_back(state, refusal),
            },
            _ => fall_back(state, error),
        },
        Phase::Normalizing => if state.mechanism == Mechanism::ComReveal {
            match event {
                EventView::Path(path) => match wide_path(path) {
                    Ok(wide) => pending(
                        state,
                        Phase::CreatingList,
                        ActionView::CreateItemList(wide),
                    ),
                    Err(rejection) => unwind(
                        state,
                        rejection,
                        Phase::Uninitializing,
                        ActionView::ComUninitialize,
                    ),
                },
                EventView::WorkerPanicked => finish(state, Err(error)),
                _ => unwind(state, failure, Phase::Uninitializing, ActionView::ComUninitialize),
            }
        } else {
            match event {
                EventView::Path(path) => match wide_path(path) {
                    Ok(wide) => pending(state, Phase::Executing, ActionView::ShellExecute(wide)),
                    Err(rejection) => fall_back(state, OpenErrorView::Io(rejection)),
                },
                _ => fall_back(state, error),
            }
        },
        Phase::Connecting => match event {
            EventView::Done => pending(
                state,
                Phase::Resolving,
                ActionView::Canonicalize(state.target),
            ),
            _ => fall_back(StateView { remaining: off_bus(state.remaining), ..state }, error),
        },
        Phase::Resolving => if state.mechanism == Mechanism::OpenParent {
            fallback_model(state, resolved(event))
        } else {
            match uri_of(resolved(event)) {
                Ok(uri) => pending(state, Phase::Calling, ActionView::DbusCall(show_items(uri))),
                Err(refusal) => fall_back(state, refusal),
            }
        },
        Phase::OpeningFile => match event {
            EventView::Done => pending(
                state,
                Phase::Calling,
                ActionView::DbusCall(open_directory()),
            ),
            _ => fall_back(state, error),
        },
        Phase::Calling => match event {
            EventView::Done => finish(state, Ok(())),
            _ => fall_back(state, error),
        },
        Phase::StartingWorker => match event {
            EventView::Done => pending(state, Phase::Initializing, ActionView::ComInitialize),
            _ => finish(state, Err(error)),
        },
        Phase::Initializing => match event {
            EventView::Done => pending(
                state,
                Phase::Normalizing,
                ActionView::Normalize(state.target),
            ),
            EventView::WorkerPanicked => finish(state, Err(error)),
            _ => unwind(state, failure, Phase::Joining, ActionView::JoinWorker),
        },
        Phase::CreatingList => match event {
            EventView::Done => pending(state, Phase::Selecting, ActionView::SelectItem),
            EventView::WorkerPanicked => finish(state, Err(error)),
            _ => unwind(state, failure, Phase::Uninitializing, ActionView::ComUninitialize),
        },
        Phase::Selecting => match event {
            EventView::Done => pending(state, Phase::Releasing, ActionView::FreeItemList),
            EventView::WorkerPanicked => finish(state, Err(error)),
            _ => unwind(state, failure, Phase::Releasing, ActionView::FreeItemList),
        },
        Phase::Releasing => match event {
            EventView::Done => pending(state, Phase::Uninitializing, ActionView::ComUninitialize),
            EventView::WorkerPanicked => finish(state, Err(error)),
            _ => unwind(state, failure, Phase::Uninitializing, ActionView::ComUninitialize),
        },
        Phase::Uninitializing => match event {
            EventView::Done => pending(state, Phase::Joining, ActionView::JoinWorker),
            EventView::WorkerPanicked => finish(state, Err(error)),
            _ => unwind(state, failure, Phase::Joining, ActionView::JoinWorker),
        },
        Phase::Joining => match event {
            EventView::Done => finish(state, held_outcome(state)),
            _ => finish(state, Err(error)),
        },
        Phase::Finished => finish(state, Err(OpenErrorView::Io(unexpected_failure()))),
    }
}

} // verus!
