//! The dispatcher: it picks the strategy for a request and walks through it,
//! one action at a time, falling back where a mechanism is missing or fails.
//!
//! A request starts with [`open`], [`open_browser`], [`reveal_in_file_manager`] or
//! [`dispatch`]. Each gives a [`Step`]: the action to carry out and the
//! state to hand back, together with what happened, to [`resume`]. The
//! request is served when the action is [`Action::Finish`].

use crate::command::{
    browser, macos_open, macos_reveal, open_with_browser, open_with_internal_xdg_open, open_with_macos_launcher,
    open_with_system_xdg_open, open_with_wslview, reveal_in_windows_explorer,
    reveal_with_macos_launcher, system_xdg_open, wait_child, windows_path_query, wslpath,
    Invocation,
};
use crate::environment::Environment;
use crate::error::{outcome_view, IoFailure, IoKind, OpenError, OpenErrorView};
use crate::freedesktop::{
    canonical_view, path_to_uri, reveal_with_filemanager1, reveal_with_open_uri_portal,
};
use crate::machine::{
    failure_of, Action, ActionView, Event, EventView, Mechanism, OpenRequest, Operation, Phase,
    State, Step,
};
use crate::model::{
    begin, browser_model, detached, dispatch_model, fall_back, fallback_model, finish, initial,
    invocation_for, mechanism_name, needs_conversion, off_bus, open_model, pending,
    pipes_stderr, record, reveal_model, transition, unwind, uses_bus,
};
use crate::paths::directory_of;
use crate::strategy::{lemma_strategy_total, strategy, strategy_for};
use crate::text::ends_with;
use crate::win32::{convert_path, open_helper, wide_path};
use crate::wsl::wsl_to_windows_path;
use vstd::prelude::*;
use vstd::string::StringExecFns;

verus! {

/// The name under which a mechanism's command appears in a failure.
pub fn command_name(mechanism: Mechanism) -> (r: &'static str)
    ensures
        r@ == mechanism_name(mechanism),
{
    match mechanism {
        Mechanism::ShellExecute => "ShellExecuteW",
        Mechanism::ShellExecuteNormalized => "ShellExecuteW",
        Mechanism::ComReveal => "SHOpenFolderAndSelectItems",
        Mechanism::MacOpen => "open",
        Mechanism::MacReveal => "open",
        Mechanism::WslView => "wslview",
        Mechanism::XdgOpen => "xdg-open",
        Mechanism::XdgOpenScript => "xdg-open (internal)",
        Mechanism::Explorer => "explorer.exe",
        Mechanism::FileManager1 => "org.freedesktop.FileManager1",
        Mechanism::OpenUriPortal => "org.freedesktop.portal.OpenURI",
        Mechanism::OpenParent => "xdg-open",
        Mechanism::Browser => "browser",
    }
}

fn is_detached(mechanism: Mechanism) -> (r: bool)
    ensures
        r == detached(mechanism),
{
    match mechanism {
        Mechanism::Explorer => true,
        Mechanism::Browser => true,
        _ => false,
    }
}

fn has_piped_stderr(mechanism: Mechanism) -> (r: bool)
    ensures
        r == pipes_stderr(mechanism),
{
    match mechanism {
        Mechanism::MacOpen => true,
        Mechanism::MacReveal => true,
        Mechanism::WslView => true,
        _ => false,
    }
}

fn is_on_bus(mechanism: Mechanism) -> (r: bool)
    ensures
        r == uses_bus(mechanism),
{
    match mechanism {
        Mechanism::FileManager1 => true,
        Mechanism::OpenUriPortal => true,
        _ => false,
    }
}

fn wants_conversion(env: Environment, mechanism: Mechanism, program: &Option<String>) -> (r: bool)
    ensures
        r == needs_conversion(env, mechanism, program.deep_view()),
{
    match mechanism {
        Mechanism::WslView => true,
        Mechanism::Explorer => true,
        Mechanism::Browser => match env {
            Environment::LinuxWsl => match program {
                Some(name) => ends_with(name.as_str(), ".exe"),
                None => false,
            },
            _ => false,
        },
        _ => false,
    }
}

/// Describes the program that a mechanism starts.
pub fn invocation(
    mechanism: Mechanism,
    target: &str,
    program: &Option<String>,
    converted: Option<String>,
) -> (r: Invocation)
    ensures
        r@ == invocation_for(mechanism, target@, program.deep_view(), converted.deep_view()),
{
    match mechanism {
        Mechanism::MacOpen => open_with_macos_launcher(target),
        Mechanism::MacReveal => reveal_with_macos_launcher(target),
        Mechanism::WslView => open_with_wslview(target, converted),
        Mechanism::XdgOpenScript => open_with_internal_xdg_open(target),
        Mechanism::Explorer => reveal_in_windows_explorer(target, converted),
        Mechanism::Browser => match program {
            Some(name) => open_with_browser(name.as_str(), target, converted),
            None => {
                let nameless = String::new();
                open_with_browser(nameless.as_str(), target, converted)
            },
        },
        _ => open_with_system_xdg_open(target),
    }
}

fn without_bus(remaining: Vec<Mechanism>) -> (r: Vec<Mechanism>)
    ensures
        r@ == off_bus(remaining@),
{
    let mut rest = remaining;
    while rest.len() > 0 && is_on_bus(rest[0])
        invariant
            off_bus(rest@) == off_bus(remaining@),
        decreases rest.len(),
    {
        let ghost before = rest@;
        rest.remove(0);
        assert(rest@ =~= before.drop_first());
    }
    rest
}

fn wait_for(state: State, phase: Phase, action: Action) -> (r: Step)
    ensures
        r@ == pending(state@, phase, action@),
{
    let mut state = state;
    state.phase = phase;
    Step { state, action }
}

fn finish_with(state: State, outcome: Result<(), OpenError>) -> (r: Step)
    ensures
        r@ == finish(state@, outcome_view(outcome)),
{
    let mut state = state;
    state.phase = Phase::Finished;
    Step { state, action: Action::Finish(outcome) }
}

fn hold_back(state: State, failure: OpenError) -> (r: State)
    ensures
        r@ == record(state@, failure@),
{
    let mut state = state;
    if state.first_failure.is_none() {
        state.first_failure = Some(failure);
    }
    state
}

fn unwind_to(state: State, failure: IoFailure, phase: Phase, action: Action) -> (r: Step)
    ensures
        r@ == unwind(state@, failure@, phase, action@),
{
    wait_for(hold_back(state, OpenError::Io(failure)), phase, action)
}

fn begin_mechanism(state: State) -> (r: Step)
    ensures
        r@ == begin(state@),
    decreases state.remaining@.len(), 1nat,
{
    match state.mechanism {
        Mechanism::ShellExecute => match convert_path(state.target.as_str()) {
            Ok(wide) => wait_for(state, Phase::Executing, Action::ShellExecute(wide)),
            Err(failure) => fall_back_from(state, OpenError::Io(failure)),
        },
        Mechanism::ShellExecuteNormalized => {
            let path = state.target.clone();
            wait_for(state, Phase::Normalizing, Action::Normalize(path))
        },
        Mechanism::ComReveal => wait_for(state, Phase::StartingWorker, Action::StartWorker),
        Mechanism::FileManager1 => wait_for(state, Phase::Connecting, Action::DbusConnect),
        Mechanism::OpenUriPortal => {
            let path = state.target.clone();
            wait_for(state, Phase::OpeningFile, Action::OpenFile(path))
        },
        Mechanism::OpenParent => {
            let path = state.target.clone();
            wait_for(state, Phase::Resolving, Action::Canonicalize(path))
        },
        _ => {
            if wants_conversion(state.env, state.mechanism, &state.browser) {
                let query = windows_path_query(state.target.as_str());
                wait_for(state, Phase::Converting, Action::Capture(query))
            } else {
                let program = invocation(
                    state.mechanism,
                    state.target.as_str(),
                    &state.browser,
                    None,
                );
                wait_for(state, Phase::Spawning, Action::Spawn(program))
            }
        },
    }
}

fn fall_back_from(state: State, failure: OpenError) -> (r: Step)
    ensures
        r@ == fall_back(state@, failure@),
    decreases state.remaining@.len(), 0nat,
{
    if state.remaining.len() > 0 {
        let mut next = hold_back(state, failure);
        let ghost waiting = next.remaining@;
        next.mechanism = next.remaining.remove(0);
        next.status = None;
        assert(next.remaining@ =~= waiting.drop_first());
        begin_mechanism(next)
    } else {
        let reported = match state.mechanism {
            Mechanism::ShellExecuteNormalized => match &state.first_failure {
                Some(first) => first.duplicate(),
                None => failure,
            },
            _ => failure,
        };
        finish_with(state, Err(reported))
    }
}

fn start(env: Environment, operation: Operation, target: &str, program: Option<String>) -> (r:
    Step)
    ensures
        r@ == begin(initial(env, operation, target@, program.deep_view())),
{
    let mut remaining = strategy(env, operation);
    proof {
        lemma_strategy_total(env, operation);
    }
    let ghost whole = remaining@;
    let mechanism = remaining.remove(0);
    assert(remaining@ =~= whole.drop_first());
    begin_mechanism(
        State {
            env,
            target: String::from_str(target),
            browser: program,
            mechanism,
            remaining,
            phase: Phase::Finished,
            first_failure: None,
            status: None,
        },
    )
}

/// Starts a request to open `target`, a path or a link, in `env`.
///
/// - On native Windows the native shell is called, and once more on the
///   normalized path where the first call fails.
/// - On macOS the system's launcher is started.
/// - On Linux on a Windows kernel the viewer of the subsystem is started,
///   and the desktop's opener where the viewer cannot be started.
/// - Elsewhere the desktop's opener is started, and a shell on the opener
///   script where the opener cannot be started.
pub fn open(env: Environment, target: &str) -> (r: Step)
    ensures
        r@ == open_model(env, target@),
        env == Environment::NativeWindows ==> match wide_path(target@) {
            Ok(wide) => r@.action == ActionView::ShellExecute(wide),
            Err(_) => r@.action == ActionView::Normalize(target@),
        },
        env == Environment::MacOs ==> r@.action == ActionView::Spawn(macos_open(target@)),
        env == Environment::LinuxWsl ==> r@.action == ActionView::Capture(wslpath(target@)),
        env == Environment::LinuxDesktop || env == Environment::ContainerizedLinux ==> r@.action
            == ActionView::Spawn(system_xdg_open(target@)),
{
    proof {
        let retry = strategy_for(Environment::NativeWindows, Operation::Open).drop_first();
        assert(retry =~= seq![Mechanism::ShellExecuteNormalized]);
        reveal_with_fuel(begin, 2);
        reveal_with_fuel(fall_back, 2);
    }
    start(env, Operation::Open, target, None)
}

/// Starts a request to reveal the file or directory `target` in `env`.
///
/// - On native Windows a worker thread makes the native calls.
/// - On macOS the system's launcher is started.
/// - On Linux on a Windows kernel the Windows file explorer is started.
/// - Elsewhere the file manager is asked over the session bus, then the
///   desktop portal, and at last the directory that holds the target is
///   opened.
pub fn reveal_in_file_manager(env: Environment, target: &str) -> (r: Step)
    ensures
        r@ == reveal_model(env, target@),
        env == Environment::NativeWindows ==> r@.action == ActionView::StartWorker,
        env == Environment::MacOs ==> r@.action == ActionView::Spawn(macos_reveal(target@)),
        env == Environment::LinuxWsl ==> r@.action == ActionView::Capture(wslpath(target@)),
        env == Environment::LinuxDesktop || env == Environment::ContainerizedLinux ==> r@.action
            == ActionView::DbusConnect,
{
    start(env, Operation::Reveal, target, None)
}

/// Starts a request to open `target` in a browser. `program` is the browser
/// that the user named, if any: it is started on the target, or on the
/// target's Windows path where that applies. With no browser named the
/// request is served as [`open`] serves it.
pub fn open_browser(env: Environment, program: Option<String>, target: &str) -> (r: Step)
    ensures
        r@ == browser_model(env, program.deep_view(), target@),
        program is None ==> r@ == open_model(env, target@),
        program is Some && !needs_conversion(env, Mechanism::Browser, program.deep_view())
            ==> r@.action == ActionView::Spawn(
            browser(program->0@, target@, None),
        ),
        program is Some && needs_conversion(env, Mechanism::Browser, program.deep_view())
            ==> r@.action == ActionView::Capture(wslpath(target@)),
{
    match program {
        Some(name) => start(env, Operation::OpenBrowser, target, Some(name)),
        None => open(env, target),
    }
}

/// The variable of the environment that names the browser.
pub const BROWSER_VARIABLE: &'static str = "BROWSER";

/// Starts a request. `program` is the browser that the user named, if any;
/// only a request to open in a browser looks at it.
pub fn dispatch(env: Environment, request: &OpenRequest, program: Option<String>) -> (r: Step)
    ensures
        r@ == dispatch_model(env, request.operation, request.target@, program.deep_view()),
{
    match request.operation {
        Operation::Open => open(env, request.target.as_str()),
        Operation::OpenBrowser => open_browser(env, program, request.target.as_str()),
        Operation::Reveal => reveal_in_file_manager(env, request.target.as_str()),
    }
}

/// Degrades a reveal to opening the directory that holds the target.
/// `canonical` is what resolving the target's path gave: for a resolved path
/// a request to open its parent starts; a path that could not be resolved
/// ends the request with that failure.
pub fn reveal_fallback(state: State, canonical: Result<String, IoFailure>) -> (r: Step)
    ensures
        r@ == fallback_model(state@, canonical_view(canonical)),
{
    match canonical {
        Ok(path) => {
            let directory = directory_of(path.as_str());
            open(state.env, directory.as_str())
        },
        Err(failure) => finish_with(state, Err(OpenError::Io(failure))),
    }
}

fn after_converting(state: State, event: Event) -> (r: Step)
    requires
        state.phase == Phase::Converting,
    ensures
        r@ == transition(state@, event@),
{
    let converted = match event {
        Event::Captured(output) => wsl_to_windows_path(Some(output)),
        _ => None,
    };
    let program = invocation(state.mechanism, state.target.as_str(), &state.browser, converted);
    wait_for(state, Phase::Spawning, Action::Spawn(program))
}

fn after_spawning(state: State, event: Event) -> (r: Step)
    requires
        state.phase == Phase::Spawning,
    ensures
        r@ == transition(state@, event@),
{
    match event {
        Event::Done => {
            if is_detached(state.mechanism) {
                finish_with(state, Ok(()))
            } else if state.mechanism == Mechanism::XdgOpenScript {
                wait_for(state, Phase::Feeding, Action::WriteScript)
            } else {
                wait_for(state, Phase::Waiting, Action::Wait)
            }
        },
        other => fall_back_from(state, OpenError::Io(other.into_failure())),
    }
}

fn after_feeding(state: State, event: Event) -> (r: Step)
    requires
        state.phase == Phase::Feeding,
    ensures
        r@ == transition(state@, event@),
{
    match event {
        Event::Done => wait_for(state, Phase::Waiting, Action::Wait),
        other => finish_with(state, Err(OpenError::Io(other.into_failure()))),
    }
}

fn after_waiting(state: State, event: Event) -> (r: Step)
    requires
        state.phase == Phase::Waiting,
    ensures
        r@ == transition(state@, event@),
{
    match event {
        Event::Exited(status) => {
            if status.success() {
                finish_with(state, Ok(()))
            } else if has_piped_stderr(state.mechanism) {
                let mut state = state;
                state.status = Some(status);
                wait_for(state, Phase::Collecting, Action::ReadStderr)
            } else {
                let outcome = wait_child(command_name(state.mechanism), status, None);
                finish_with(state, outcome)
            }
        },
        other => finish_with(state, Err(OpenError::Io(other.into_failure()))),
    }
}

fn after_collecting(state: State, event: Event) -> (r: Step)
    requires
        state.phase == Phase::Collecting,
    ensures
        r@ == transition(state@, event@),
{
    let mut state = state;
    let ended = state.status.take();
    match ended {
        Some(status) => {
            let text = match event {
                Event::Text(text) => Some(text),
                _ => None,
            };
            let kept = status.duplicate();
            let outcome = wait_child(command_name(state.mechanism), status, text);
            state.status = Some(kept);
            finish_with(state, outcome)
        },
        None => finish_with(
            state,
            Err(
                OpenError::Io(
                    IoFailure::new(
                        IoKind::InvalidData,
                        "the event does not answer the pending action",
                    ),
                ),
            ),
        ),
    }
}

fn after_executing(state: State, event: Event) -> (r: Step)
    requires
        state.phase == Phase::Executing,
    ensures
        r@ == transition(state@, event@),
{
    match event {
        Event::ShellExecuted { instance, last_error } => match open_helper(instance, last_error) {
            Ok(_) => finish_with(state, Ok(())),
            Err(refusal) => fall_back_from(state, refusal),
        },
        other => fall_back_from(state, OpenError::Io(other.into_failure())),
    }
}

fn after_normalizing(state: State, event: Event) -> (r: Step)
    requires
        state.phase == Phase::Normalizing,
    ensures
        r@ == transition(state@, event@),
{
    if state.mechanism == Mechanism::ComReveal {
        match event {
            Event::Path(path) => match convert_path(path.as_str()) {
                Ok(wide) => wait_for(state, Phase::CreatingList, Action::CreateItemList(wide)),
                Err(rejection) => unwind_to(
                    state,
                    rejection,
                    Phase::Uninitializing,
                    Action::ComUninitialize,
                ),
            },
            Event::WorkerPanicked => finish_with(
                state,
                Err(OpenError::Io(Event::WorkerPanicked.into_failure())),
            ),
            other => unwind_to(
                state,
                other.into_failure(),
                Phase::Uninitializing,
                Action::ComUninitialize,
            ),
        }
    } else {
        match event {
            Event::Path(path) => match convert_path(path.as_str()) {
                Ok(wide) => wait_for(state, Phase::Executing, Action::ShellExecute(wide)),
                Err(rejection) => fall_back_from(state, OpenError::Io(rejection)),
            },
            other => fall_back_from(state, OpenError::Io(other.into_failure())),
        }
    }
}

fn after_connecting(state: State, event: Event) -> (r: Step)
    requires
        state.phase == Phase::Connecting,
    ensures
        r@ == transition(state@, event@),
{
    match event {
        Event::Done => {
            let path = state.target.clone();
            wait_for(state, Phase::Resolving, Action::Canonicalize(path))
        },
        other => {
            let mut state = state;
            let waiting = state.remaining;
            state.remaining = without_bus(waiting);
            fall_back_from(state, OpenError::Io(other.into_failure()))
        },
    }
}

fn after_resolving(state: State, event: Event) -> (r: Step)
    requires
        state.phase == Phase::Resolving,
    ensures
        r@ == transition(state@, event@),
{
    let canonical = match event {
        Event::Path(path) => Ok(path),
        other => Err(other.into_failure()),
    };
    if state.mechanism == Mechanism::OpenParent {
        reveal_fallback(state, canonical)
    } else {
        match path_to_uri(canonical) {
            Ok(uri) => wait_for(
                state,
                Phase::Calling,
                Action::DbusCall(reveal_with_filemanager1(uri)),
            ),
            Err(refusal) => fall_back_from(state, refusal),
        }
    }
}

fn after_opening_file(state: State, event: Event) -> (r: Step)
    requires
        state.phase == Phase::OpeningFile,
    ensures
        r@ == transition(state@, event@),
{
    match event {
        Event::Done => wait_for(
            state,
            Phase::Calling,
            Action::DbusCall(reveal_with_open_uri_portal()),
        ),
        other => fall_back_from(state, OpenError::Io(other.into_failure())),
    }
}

fn after_calling(state: State, event: Event) -> (r: Step)
    requires
        state.phase == Phase::Calling,
    ensures
        r@ == transition(state@, event@),
{
    match event {
        Event::Done => finish_with(state, Ok(())),
        other => fall_back_from(state, OpenError::Io(other.into_failure())),
    }
}

fn after_starting_worker(state: State, event: Event) -> (r: Step)
    requires
        state.phase == Phase::StartingWorker,
    ensures
        r@ == transition(state@, event@),
{
    match event {
        Event::Done => wait_for(state, Phase::Initializing, Action::ComInitialize),
        other => finish_with(state, Err(OpenError::Io(other.into_failure()))),
    }
}

/// The step of the worker's native calls: on to `onward` where the call was
/// carried out, the end where the worker is lost, and else on to `retreat`
/// with the failure held back.
fn after_native_call(
    state: State,
    event: Event,
    onward: (Phase, Action),
    retreat: (Phase, Action),
) -> (r: Step)
    ensures
        r@ == (match event@ {
            EventView::Done => pending(state@, onward.0, onward.1@),
            EventView::WorkerPanicked => finish(
                state@,
                Err(OpenErrorView::Io(failure_of(event@))),
            ),
            _ => unwind(state@, failure_of(event@), retreat.0, retreat.1@),
        }),
{
    match event {
        Event::Done => wait_for(state, onward.0, onward.1),
        Event::WorkerPanicked => finish_with(
            state,
            Err(OpenError::Io(Event::WorkerPanicked.into_failure())),
        ),
        other => unwind_to(state, other.into_failure(), retreat.0, retreat.1),
    }
}

fn after_initializing(state: State, event: Event) -> (r: Step)
    requires
        state.phase == Phase::Initializing,
    ensures
        r@ == transition(state@, event@),
{
    let path = state.target.clone();
    after_native_call(
        state,
        event,
        (Phase::Normalizing, Action::Normalize(path)),
        (Phase::Joining, Action::JoinWorker),
    )
}

fn after_joining(state: State, event: Event) -> (r: Step)
    requires
        state.phase == Phase::Joining,
    ensures
        r@ == transition(state@, event@),
{
    match event {
        Event::Done => {
            let outcome = match &state.first_failure {
                Some(failure) => Err(failure.duplicate()),
                None => Ok(()),
            };
            finish_with(state, outcome)
        },
        other => finish_with(state, Err(OpenError::Io(other.into_failure()))),
    }
}

/// Takes the request one step on: `event` is what came of the action that
/// was asked for together with `state`. An event that does not answer that
/// action counts as the action's failure.
pub fn resume(state: State, event: Event) -> (r: Step)
    ensures
        r@ == transition(state@, event@),
{
    match state.phase {
        Phase::Converting => after_converting(state, event),
        Phase::Spawning => after_spawning(state, event),
        Phase::Feeding => after_feeding(state, event),
        Phase::Waiting => after_waiting(state, event),
        Phase::Collecting => after_collecting(state, event),
        Phase::Executing => after_executing(state, event),
        Phase::Normalizing => after_normalizing(state, event),
        Phase::Connecting => after_connecting(state, event),
        Phase::Resolving => after_resolving(state, event),
        Phase::OpeningFile => after_opening_file(state, event),
        Phase::Calling => after_calling(state, event),
        Phase::StartingWorker => after_starting_worker(state, event),
        Phase::Initializing => after_initializing(state, event),
        Phase::CreatingList => after_native_call(
            state,
            event,
            (Phase::Selecting, Action::SelectItem),
            (Phase::Uninitializing, Action::ComUninitialize),
        ),
        Phase::Selecting => after_native_call(
            state,
            event,
            (Phase::Releasing, Action::FreeItemList),
            (Phase::Releasing, Action::FreeItemList),
        ),
        Phase::Releasing => after_native_call(
            state,
            event,
            (Phase::Uninitializing, Action::ComUninitialize),
            (Phase::Uninitializing, Action::ComUninitialize),
        ),
        Phase::Uninitializing => after_native_call(
            state,
            event,
            (Phase::Joining, Action::JoinWorker),
            (Phase::Joining, Action::JoinWorker),
        ),
        Phase::Joining => after_joining(state, event),
        Phase::Finished => finish_with(
            state,
            Err(
                OpenError::Io(
                    IoFailure::new(
                        IoKind::InvalidData,
                        "the event does not answer the pending action",
                    ),
                ),
            ),
        ),
    }
}

} // verus!
