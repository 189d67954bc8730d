use opener::command::{
    open_with_internal_xdg_open, open_with_system_xdg_open, reveal_in_windows_explorer,
    reveal_with_macos_launcher, windows_path_query,
};
use opener::dispatch::{open, resume, reveal_fallback, reveal_in_file_manager};
use opener::environment::Environment;
use opener::error::{ExitStatus, IoFailure, IoKind, OpenError};
use opener::freedesktop::{reveal_with_filemanager1, reveal_with_open_uri_portal};
use opener::machine::{Action, Event, Mechanism, Operation, Step};
use opener::strategy::strategy;
use opener::wsl::CommandOutput;

fn drive(first: Step, events: Vec<Event>) -> Vec<Action> {
    let mut actions = Vec::new();
    let Step { mut state, action } = first;
    actions.push(action);
    for event in events {
        let step = resume(state, event);
        state = step.state;
        actions.push(step.action);
    }
    actions
}

fn exited(code: i32) -> ExitStatus {
    ExitStatus { code: Some(code), text: format!("exit status: {}", code) }
}

fn failure(kind: IoKind, message: &str) -> IoFailure {
    IoFailure { kind, code: None, message: String::from(message) }
}

fn wide(text: &str) -> Vec<u16> {
    let mut units: Vec<u16> = text.encode_utf16().collect();
    units.push(0);
    units
}

fn worker_lost() -> OpenError {
    OpenError::Io(failure(IoKind::Other, "the worker thread ended without a result"))
}

#[test]
fn strategy_table() {
    let (windows, macos, wsl) =
        (Environment::NativeWindows, Environment::MacOs, Environment::LinuxWsl);
    let (desktop, container) = (Environment::LinuxDesktop, Environment::ContainerizedLinux);
    assert_eq!(
        strategy(windows, Operation::Open),
        vec![Mechanism::ShellExecute, Mechanism::ShellExecuteNormalized]
    );
    assert_eq!(strategy(macos, Operation::Open), vec![Mechanism::MacOpen]);
    assert_eq!(strategy(wsl, Operation::Open), vec![Mechanism::WslView, Mechanism::XdgOpen]);
    assert_eq!(
        strategy(desktop, Operation::Open),
        vec![Mechanism::XdgOpen, Mechanism::XdgOpenScript]
    );
    assert_eq!(
        strategy(container, Operation::Open),
        vec![Mechanism::XdgOpen, Mechanism::XdgOpenScript]
    );
    assert_eq!(strategy(windows, Operation::Reveal), vec![Mechanism::ComReveal]);
    assert_eq!(strategy(macos, Operation::Reveal), vec![Mechanism::MacReveal]);
    assert_eq!(strategy(wsl, Operation::Reveal), vec![Mechanism::Explorer]);
    for env in [desktop, container] {
        assert_eq!(
            strategy(env, Operation::Reveal),
            vec![Mechanism::FileManager1, Mechanism::OpenUriPortal, Mechanism::OpenParent]
        );
    }
    for env in [windows, macos, wsl, desktop, container] {
        assert_eq!(strategy(env, Operation::OpenBrowser), vec![Mechanism::Browser]);
        for operation in [Operation::Open, Operation::OpenBrowser, Operation::Reveal] {
            assert!(!strategy(env, operation).is_empty());
        }
    }
}

#[test]
fn macos_reveal() {
    let actions = drive(
        reveal_in_file_manager(Environment::MacOs, "/Users/me/a.pdf"),
        vec![Event::Done, Event::Exited(exited(0))],
    );
    assert_eq!(
        actions,
        vec![
            Action::Spawn(reveal_with_macos_launcher("/Users/me/a.pdf")),
            Action::Wait,
            Action::Finish(Ok(())),
        ]
    );
}

#[test]
fn macos_reveal_reports_the_error_stream() {
    let actions = drive(
        reveal_in_file_manager(Environment::MacOs, "/nope"),
        vec![Event::Done, Event::Exited(exited(1)), Event::Text(String::from("\tnot there \n"))],
    );
    assert_eq!(
        actions[3],
        Action::Finish(Err(OpenError::ExitStatus {
            cmd: "open",
            status: exited(1),
            stderr: String::from("not there"),
        }))
    );
}

// The explorer is started and not waited for.
#[test]
fn wsl_reveal_starts_the_explorer() {
    let actions = drive(
        reveal_in_file_manager(Environment::LinuxWsl, "/mnt/c/a.txt"),
        vec![
            Event::Captured(CommandOutput { success: true, stdout: b"C:\\a.txt\n".to_vec() }),
            Event::Done,
        ],
    );
    assert_eq!(
        actions,
        vec![
            Action::Capture(windows_path_query("/mnt/c/a.txt")),
            Action::Spawn(reveal_in_windows_explorer(
                "/mnt/c/a.txt",
                Some(String::from("C:\\a.txt"))
            )),
            Action::Finish(Ok(())),
        ]
    );
}

#[test]
fn wsl_reveal_without_conversion_or_explorer() {
    let missing = failure(IoKind::NotFound, "explorer.exe");
    let actions = drive(
        reveal_in_file_manager(Environment::LinuxWsl, "/mnt/c/a.txt"),
        vec![Event::Failed(failure(IoKind::NotFound, "wslpath")), Event::Failed(missing.clone())],
    );
    assert_eq!(actions[1], Action::Spawn(reveal_in_windows_explorer("/mnt/c/a.txt", None)));
    assert_eq!(actions[2], Action::Finish(Err(OpenError::Io(missing))));
}

#[test]
fn desktop_reveal_with_the_file_manager() {
    for env in [Environment::LinuxDesktop, Environment::ContainerizedLinux] {
        let actions = drive(
            reveal_in_file_manager(env, "foo.txt"),
            vec![Event::Done, Event::Path(String::from("/tmp/foo.txt")), Event::Done],
        );
        assert_eq!(
            actions,
            vec![
                Action::DbusConnect,
                Action::Canonicalize(String::from("foo.txt")),
                Action::DbusCall(reveal_with_filemanager1(String::from("file:///tmp/foo.txt"))),
                Action::Finish(Ok(())),
            ]
        );
    }
}

#[test]
fn desktop_reveal_falls_back_to_the_portal() {
    let actions = drive(
        reveal_in_file_manager(Environment::LinuxDesktop, "/tmp/foo.txt"),
        vec![
            Event::Done,
            Event::Path(String::from("/tmp/foo.txt")),
            Event::DbusError(String::from("ServiceUnknown")),
            Event::Done,
            Event::Done,
        ],
    );
    assert_eq!(actions[3], Action::OpenFile(String::from("/tmp/foo.txt")));
    assert_eq!(actions[4], Action::DbusCall(reveal_with_open_uri_portal()));
    assert_eq!(actions[5], Action::Finish(Ok(())));
}

#[test]
fn desktop_reveal_falls_back_to_opening_the_parent() {
    let actions = drive(
        reveal_in_file_manager(Environment::LinuxDesktop, "/tmp/dir/foo.txt"),
        vec![
            Event::Done,
            Event::Path(String::from("/tmp/dir/foo.txt")),
            Event::DbusError(String::from("ServiceUnknown")),
            Event::Done,
            Event::DbusError(String::from("no portal")),
            Event::Path(String::from("/tmp/dir/foo.txt")),
            Event::Failed(failure(IoKind::NotFound, "xdg-open")),
            Event::Done,
            Event::Done,
            Event::Exited(exited(0)),
        ],
    );
    assert_eq!(actions[5], Action::Canonicalize(String::from("/tmp/dir/foo.txt")));
    assert_eq!(actions[6], Action::Spawn(open_with_system_xdg_open("/tmp/dir")));
    assert_eq!(actions[7], Action::Spawn(open_with_internal_xdg_open("/tmp/dir")));
    assert_eq!(actions[8], Action::WriteScript);
    assert_eq!(actions[9], Action::Wait);
    assert_eq!(actions[10], Action::Finish(Ok(())));
}

// Without a session bus neither bus mechanism is tried.
#[test]
fn desktop_reveal_without_a_session_bus() {
    let actions = drive(
        reveal_in_file_manager(Environment::LinuxDesktop, "/tmp/foo.txt"),
        vec![
            Event::DbusError(String::from("no bus")),
            Event::Path(String::from("/tmp/foo.txt")),
            Event::Done,
            Event::Exited(exited(0)),
        ],
    );
    assert_eq!(
        actions,
        vec![
            Action::DbusConnect,
            Action::Canonicalize(String::from("/tmp/foo.txt")),
            Action::Spawn(open_with_system_xdg_open("/tmp")),
            Action::Wait,
            Action::Finish(Ok(())),
        ]
    );
}

// A file that does not exist: no URI, no file to hand to the portal, no
// parent to open. The last failure is the outcome.
#[test]
fn desktop_reveal_of_a_missing_file() {
    let missing = IoFailure { kind: IoKind::NotFound, code: Some(2), message: String::from("gone") };
    let actions = drive(
        reveal_in_file_manager(Environment::LinuxDesktop, "nope"),
        vec![
            Event::Done,
            Event::Failed(missing.clone()),
            Event::Failed(missing.clone()),
            Event::Failed(missing.clone()),
        ],
    );
    assert_eq!(
        actions,
        vec![
            Action::DbusConnect,
            Action::Canonicalize(String::from("nope")),
            Action::OpenFile(String::from("nope")),
            Action::Canonicalize(String::from("nope")),
            Action::Finish(Err(OpenError::Io(missing))),
        ]
    );
}

#[test]
fn desktop_reveal_of_a_path_without_uri_goes_to_the_portal() {
    let actions = drive(
        reveal_in_file_manager(Environment::LinuxDesktop, "x"),
        vec![Event::Done, Event::Path(String::from("relative/x"))],
    );
    assert_eq!(actions[2], Action::OpenFile(String::from("x")));
}

#[test]
fn reveal_fallback_opens_the_parent() {
    let state = reveal_in_file_manager(Environment::LinuxDesktop, "a.txt").state;
    assert_eq!(
        reveal_fallback(state.clone(), Ok(String::from("/home/me/a.txt"))),
        open(Environment::LinuxDesktop, "/home/me")
    );
    assert_eq!(
        reveal_fallback(state.clone(), Ok(String::from("/"))),
        open(Environment::LinuxDesktop, "/")
    );
    let gone = failure(IoKind::NotFound, "gone");
    let step = reveal_fallback(state, Err(gone.clone()));
    assert_eq!(step.action, Action::Finish(Err(OpenError::Io(gone))));
}

#[test]
fn windows_reveal_runs_on_the_worker() {
    let actions = drive(
        reveal_in_file_manager(Environment::NativeWindows, "a.txt"),
        vec![
            Event::Done,
            Event::Done,
            Event::Path(String::from("C:\\dir\\a.txt")),
            Event::Done,
            Event::Done,
            Event::Done,
            Event::Done,
            Event::Done,
        ],
    );
    assert_eq!(
        actions,
        vec![
            Action::StartWorker,
            Action::ComInitialize,
            Action::Normalize(String::from("a.txt")),
            Action::CreateItemList(wide("C:\\dir\\a.txt")),
            Action::SelectItem,
            Action::FreeItemList,
            Action::ComUninitialize,
            Action::JoinWorker,
            Action::Finish(Ok(())),
        ]
    );
}

// The item list is released and the apartment left also where selecting
// fails.
#[test]
fn windows_reveal_cleans_up_after_a_failure() {
    let refused = IoFailure { kind: IoKind::Other, code: Some(-2147024894), message: String::from("x") };
    let actions = drive(
        reveal_in_file_manager(Environment::NativeWindows, "a.txt"),
        vec![
            Event::Done,
            Event::Done,
            Event::Path(String::from("C:\\dir\\a.txt")),
            Event::Done,
            Event::Failed(refused.clone()),
            Event::Done,
            Event::Done,
            Event::Done,
        ],
    );
    assert_eq!(
        actions[5..],
        [
            Action::FreeItemList,
            Action::ComUninitialize,
            Action::JoinWorker,
            Action::Finish(Err(OpenError::Io(refused))),
        ]
    );
}

#[test]
fn windows_reveal_leaves_the_apartment_when_the_path_is_bad() {
    let gone = failure(IoKind::NotFound, "gone");
    let actions = drive(
        reveal_in_file_manager(Environment::NativeWindows, "a.txt"),
        vec![Event::Done, Event::Done, Event::Failed(gone.clone()), Event::Done, Event::Done],
    );
    assert_eq!(
        actions[3..],
        [Action::ComUninitialize, Action::JoinWorker, Action::Finish(Err(OpenError::Io(gone)))]
    );
    let nul = drive(
        reveal_in_file_manager(Environment::NativeWindows, "a.txt"),
        vec![
            Event::Done,
            Event::Done,
            Event::Path(String::from("C:\\a\0")),
            Event::Done,
            Event::Done,
        ],
    );
    assert_eq!(
        nul[3..],
        [
            Action::ComUninitialize,
            Action::JoinWorker,
            Action::Finish(Err(OpenError::Io(failure(
                IoKind::InvalidInput,
                "path contains NUL byte(s)"
            )))),
        ]
    );
}

#[test]
fn windows_reveal_without_apartment_or_worker() {
    let denied = failure(IoKind::PermissionDenied, "no threads");
    let no_worker = drive(
        reveal_in_file_manager(Environment::NativeWindows, "a.txt"),
        vec![Event::Failed(denied.clone())],
    );
    assert_eq!(no_worker[1], Action::Finish(Err(OpenError::Io(denied.clone()))));
    let no_apartment = drive(
        reveal_in_file_manager(Environment::NativeWindows, "a.txt"),
        vec![Event::Done, Event::Failed(denied.clone()), Event::Done],
    );
    assert_eq!(no_apartment[2..], [Action::JoinWorker, Action::Finish(Err(OpenError::Io(denied)))]);
}

// A worker that is lost ends the request with a failure, at any point.
#[test]
fn windows_reveal_survives_a_lost_worker() {
    for done_before in 1..8 {
        let mut events = vec![Event::Done, Event::Done, Event::Path(String::from("C:\\a"))];
        events.extend(vec![Event::Done; 5]);
        events.truncate(done_before);
        events.push(Event::WorkerPanicked);
        let actions = drive(reveal_in_file_manager(Environment::NativeWindows, "a"), events);
        assert_eq!(actions[done_before + 1], Action::Finish(Err(worker_lost())), "{}", done_before);
    }
}
