use opener::command::{open_with_browser, open_with_system_xdg_open, windows_path_query};
use opener::dispatch::{dispatch, open, open_browser, resume, BROWSER_VARIABLE};
use opener::environment::Environment;
use opener::error::{IoFailure, IoKind, OpenError};
use opener::machine::{Action, Event, OpenRequest, Operation, Step};
use opener::wsl::CommandOutput;

fn drive(first: Step, events: Vec<Event>) -> Vec<Action> {
    let mut actions = Vec::new();
    let Step { mut state, action } = first;
    actions.push(action);
    for event in events {
        let step = resume(state, event);
        state = step.state;
        actions.push(step.action);
    }
    actions
}

#[test]
fn browser_variable_name() {
    assert_eq!(BROWSER_VARIABLE, "BROWSER");
}

// The program that is started is the one that the variable names.
#[test]
fn browser_override_is_started_and_left_alone() {
    let actions = drive(
        open_browser(Environment::LinuxDesktop, Some(String::from("firefox")), "https://example.org"),
        vec![Event::Done],
    );
    assert_eq!(
        actions,
        vec![
            Action::Spawn(open_with_browser("firefox", "https://example.org", None)),
            Action::Finish(Ok(())),
        ]
    );
    match &actions[0] {
        Action::Spawn(program) => assert_eq!(program.program, "firefox"),
        other => panic!("unexpected action {:?}", other),
    }
}

#[test]
fn browser_override_on_every_platform() {
    for env in [
        Environment::NativeWindows,
        Environment::MacOs,
        Environment::LinuxDesktop,
        Environment::ContainerizedLinux,
        Environment::LinuxWsl,
    ] {
        let step = open_browser(env, Some(String::from("my-browser")), "index.html");
        assert_eq!(step.action, Action::Spawn(open_with_browser("my-browser", "index.html", None)));
    }
}

#[test]
fn browser_override_that_cannot_start() {
    let missing =
        IoFailure { kind: IoKind::NotFound, code: Some(2), message: String::from("no firefox") };
    let actions = drive(
        open_browser(Environment::LinuxDesktop, Some(String::from("firefox")), "https://example.org"),
        vec![Event::Failed(missing.clone())],
    );
    assert_eq!(actions[1], Action::Finish(Err(OpenError::Io(missing))));
}

#[test]
fn windows_browser_under_wsl_gets_the_windows_path() {
    let actions = drive(
        open_browser(Environment::LinuxWsl, Some(String::from("chrome.exe")), "/mnt/c/i.html"),
        vec![
            Event::Captured(CommandOutput { success: true, stdout: b"C:\\i.html\r\n".to_vec() }),
            Event::Done,
        ],
    );
    assert_eq!(
        actions,
        vec![
            Action::Capture(windows_path_query("/mnt/c/i.html")),
            Action::Spawn(open_with_browser(
                "chrome.exe",
                "/mnt/c/i.html",
                Some(String::from("C:\\i.html"))
            )),
            Action::Finish(Ok(())),
        ]
    );
}

#[test]
fn windows_browser_under_wsl_without_a_conversion() {
    let actions = drive(
        open_browser(Environment::LinuxWsl, Some(String::from("chrome.exe")), "https://example.org"),
        vec![Event::Captured(CommandOutput { success: false, stdout: Vec::new() })],
    );
    assert_eq!(
        actions[1],
        Action::Spawn(open_with_browser("chrome.exe", "https://example.org", None))
    );
}

#[test]
fn windows_browser_elsewhere_gets_the_path_as_given() {
    let step = open_browser(Environment::LinuxDesktop, Some(String::from("chrome.exe")), "/a");
    assert_eq!(step.action, Action::Spawn(open_with_browser("chrome.exe", "/a", None)));
    let upper = open_browser(Environment::LinuxWsl, Some(String::from("CHROME.EXE")), "/a");
    assert_eq!(upper.action, Action::Spawn(open_with_browser("CHROME.EXE", "/a", None)));
}

#[test]
fn without_override_the_request_is_an_open() {
    for env in [
        Environment::NativeWindows,
        Environment::MacOs,
        Environment::LinuxDesktop,
        Environment::ContainerizedLinux,
        Environment::LinuxWsl,
    ] {
        assert_eq!(open_browser(env, None, "/tmp/a.html"), open(env, "/tmp/a.html"));
    }
    let step = open_browser(Environment::LinuxDesktop, None, "/tmp/a.html");
    assert_eq!(step.action, Action::Spawn(open_with_system_xdg_open("/tmp/a.html")));
}

#[test]
fn an_empty_override_is_still_the_program() {
    let step = open_browser(Environment::MacOs, Some(String::new()), "/a");
    assert_eq!(step.action, Action::Spawn(open_with_browser("", "/a", None)));
}

#[test]
fn dispatch_by_operation() {
    let env = Environment::LinuxDesktop;
    let request = |operation| OpenRequest { target: String::from("/tmp/a"), operation };
    assert_eq!(dispatch(env, &request(Operation::Open), None), open(env, "/tmp/a"));
    assert_eq!(
        dispatch(env, &request(Operation::Open), Some(String::from("firefox"))),
        open(env, "/tmp/a")
    );
    assert_eq!(
        dispatch(env, &request(Operation::OpenBrowser), Some(String::from("firefox"))),
        open_browser(env, Some(String::from("firefox")), "/tmp/a")
    );
    assert_eq!(dispatch(env, &request(Operation::OpenBrowser), None), open(env, "/tmp/a"));
    assert_eq!(
        dispatch(env, &request(Operation::Reveal), Some(String::from("firefox"))).action,
        Action::DbusConnect
    );
}
