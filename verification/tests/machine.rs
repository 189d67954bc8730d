use opener::error::{ExitStatus, IoFailure, IoKind};
use opener::machine::Event;
use opener::wsl::CommandOutput;

fn unexpected() -> IoFailure {
    IoFailure {
        kind: IoKind::InvalidData,
        code: None,
        message: String::from("the event does not answer the pending action"),
    }
}

#[test]
fn a_reported_failure_is_itself() {
    let failure =
        IoFailure { kind: IoKind::PermissionDenied, code: Some(13), message: String::from("no") };
    assert_eq!(Event::Failed(failure.clone()).into_failure(), failure);
}

#[test]
fn a_bus_error_fails_with_its_description() {
    assert_eq!(
        Event::DbusError(String::from("no reply")).into_failure(),
        IoFailure { kind: IoKind::Other, code: None, message: String::from("no reply") }
    );
}

#[test]
fn a_lost_worker_is_a_failure() {
    assert_eq!(
        Event::WorkerPanicked.into_failure(),
        IoFailure {
            kind: IoKind::Other,
            code: None,
            message: String::from("the worker thread ended without a result"),
        }
    );
}

#[test]
fn any_other_event_fails_as_unexpected() {
    let events = vec![
        Event::Done,
        Event::Exited(ExitStatus { code: Some(0), text: String::from("exit status: 0") }),
        Event::Text(String::from("x")),
        Event::Captured(CommandOutput { success: true, stdout: Vec::new() }),
        Event::ShellExecuted { instance: 42, last_error: 0 },
        Event::Path(String::from("/")),
    ];
    for event in events {
        assert_eq!(event.into_failure(), unexpected());
    }
}
