use fallible_ops::file_read::{IoFailure, ReadAction, ReadEvent, ReadState};
use fallible_ops::outcome::Outcome;

/// Drives one whole read through the machine, answering the prescribed
/// actions with the given reports: `open_report` answers the open attempt
/// and, only if the machine then asks for a read, `read_report()` answers
/// the read attempt. Mirrors what a real driver does with the filesystem.
fn drive(
    open_report: ReadEvent,
    read_report: impl FnOnce() -> ReadEvent,
) -> Outcome<String, IoFailure> {
    let state = ReadState::Start;
    assert_eq!(state.next_action(), Some(ReadAction::Open));
    let state = state.step(open_report);
    let state = match state.next_action() {
        Some(ReadAction::Read) => state.step(read_report()),
        Some(ReadAction::Open) => panic!("the machine asked to open twice"),
        None => state,
    };
    assert_eq!(state.next_action(), None);
    state.into_outcome()
}

#[test]
fn successful_read_returns_the_full_contents() {
    let text = "line one\nline two\n";
    let r = drive(ReadEvent::OpenOk, || ReadEvent::ReadOk { contents: String::from(text) });
    match r {
        Outcome::Success(contents) => assert_eq!(contents, text),
        Outcome::Failure(_) => panic!("expected a success"),
    }
}

#[test]
fn open_failure_is_reported_as_open_failed() {
    let r = drive(ReadEvent::OpenErr { message: String::from("no such file") }, || {
        panic!("the read step must not run after a failed open")
    });
    match r {
        Outcome::Failure(IoFailure::OpenFailed { message }) => {
            assert_eq!(message, "no such file")
        },
        _ => panic!("expected an open failure"),
    }
}

#[test]
fn read_failure_is_reported_as_read_failed() {
    let r = drive(ReadEvent::OpenOk, || ReadEvent::ReadErr {
        message: String::from("stream did not contain valid UTF-8"),
    });
    match r {
        Outcome::Failure(IoFailure::ReadFailed { message }) => {
            assert_eq!(message, "stream did not contain valid UTF-8")
        },
        _ => panic!("expected a read failure"),
    }
}

#[test]
fn empty_contents_are_a_success() {
    let r = drive(ReadEvent::OpenOk, || ReadEvent::ReadOk { contents: String::new() });
    match r {
        Outcome::Success(contents) => assert_eq!(contents, ""),
        Outcome::Failure(_) => panic!("expected a success"),
    }
}

#[test]
fn repeated_reads_of_the_same_reports_agree() {
    // The machine is deterministic: feeding it the same sub-step reports
    // twice yields two successes with identical contents.
    let text = "same file, same bytes";
    let first = drive(ReadEvent::OpenOk, || ReadEvent::ReadOk { contents: String::from(text) });
    let second = drive(ReadEvent::OpenOk, || ReadEvent::ReadOk { contents: String::from(text) });
    match (first, second) {
        (Outcome::Success(a), Outcome::Success(b)) => assert_eq!(a, b),
        _ => panic!("expected two successes"),
    }
}

#[test]
fn actions_come_in_the_prescribed_order() {
    let state = ReadState::Start;
    assert_eq!(state.next_action(), Some(ReadAction::Open));
    let state = state.step(ReadEvent::OpenOk);
    assert_eq!(state.next_action(), Some(ReadAction::Read));
    let state = state.step(ReadEvent::ReadOk { contents: String::from("x") });
    assert_eq!(state.next_action(), None);
}

#[test]
fn a_failed_open_ends_the_read_at_once() {
    let state = ReadState::Start;
    let state = state.step(ReadEvent::OpenErr { message: String::from("permission denied") });
    assert_eq!(state.next_action(), None);
    let r = state.into_outcome();
    assert!(r.is_failure());
    match r.into_error() {
        IoFailure::OpenFailed { message } => assert_eq!(message, "permission denied"),
        IoFailure::ReadFailed { .. } => panic!("an open failure must stay an open failure"),
    }
}
