use opener::dispatch::{open, resume};
use opener::environment::Environment;
use opener::error::ExitStatus;
use opener::machine::{Action, Event, Step};

fn exit(code: i32) -> ExitStatus {
    ExitStatus { code: Some(code), text: format!("exit status: {}", code) }
}

// Opening a path that does not exist gives some kind of error: the desktop's
// opener starts, and ends with the exit code it has for a missing file.
#[test]
fn test_missing_file() {
    let Step { state, action } = open(Environment::LinuxDesktop, "non_existant_path");
    assert!(matches!(action, Action::Spawn(_)));
    let Step { state, action } = resume(state, Event::Done);
    assert_eq!(action, Action::Wait);
    let Step { action, .. } = resume(state, Event::Exited(exit(2)));
    match action {
        Action::Finish(outcome) => assert!(outcome.is_err()),
        other => panic!("the request did not end: {:?}", other),
    }
}
