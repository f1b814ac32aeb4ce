use kinestra::error::{Error, Status};
use kinestra::wait::{
    capture_outcome, cleanup_step, display_step, exec_step, progress_step, signal_outcome,
    sleep_step, stop_step, window_step, Poll, Search, StopAction, WindowStep, POLL_NS,
    STOP_TIMEOUT_NS, WINDOW_RETRY_NS,
};

fn status(code: Option<i32>, signal: Option<i32>) -> Status {
    let raw = match (code, signal) {
        (Some(c), _) => (c & 0xff) << 8,
        (None, Some(s)) => s,
        (None, None) => 0xffff,
    };
    Status { code, signal, text: String::from("st"), raw }
}

const SEC: u128 = 1_000_000_000;

const OK: Result<(), Error> = Ok(());

#[test]
fn sleep_pauses() {
    assert!(matches!(sleep_step(&OK, SEC, 0), Poll::Wait(POLL_NS)));
    assert!(matches!(sleep_step(&OK, SEC, SEC - 5), Poll::Wait(5)));
    assert!(matches!(sleep_step(&OK, SEC, SEC), Poll::Wait(0)));
    assert!(matches!(sleep_step(&OK, SEC, SEC + 1), Poll::Ready(())));
    assert!(matches!(sleep_step(&OK, 0, 0), Poll::Wait(0)));
    assert!(matches!(sleep_step(&Err(Error::Interrupted(15)), SEC, 0), Poll::Cancelled));
}

#[test]
fn failed_checks_cancel_waits() {
    let stop: Result<(), Error> = Err(Error::Interrupted(2));
    assert!(matches!(exec_step("c", &stop, Some(status(Some(0), None))), Poll::Cancelled));
    assert!(matches!(display_step(&stop, "7\n", 0), Poll::Cancelled));
    assert!(matches!(window_step("demo", &stop, Search::Found("1\n".into()), 0), WindowStep::Cancelled));
}

#[test]
fn exec_waits_then_reports() {
    assert!(matches!(exec_step("c", &OK, None), Poll::Wait(POLL_NS)));
    assert!(matches!(exec_step("c", &OK, Some(status(Some(0), None))), Poll::Ready(())));
    match exec_step("\"false\"", &OK, Some(status(Some(1), None))) {
        Poll::Fail(Error::Failed(label, st)) => {
            assert_eq!(label, "\"false\"");
            assert_eq!(st.code, Some(1));
        }
        other => panic!("unexpected {:?}", other),
    }
}

#[test]
fn cleanup_is_bounded() {
    assert!(matches!(cleanup_step("c", None, STOP_TIMEOUT_NS - 1), Poll::Wait(POLL_NS)));
    match cleanup_step("\"touch\"", None, STOP_TIMEOUT_NS) {
        Poll::Fail(Error::Timeout(m)) => assert_eq!(m, "\"touch\""),
        other => panic!("unexpected {:?}", other),
    }
    assert!(matches!(cleanup_step("c", Some(status(Some(0), None)), 10 * SEC), Poll::Ready(())));
    assert!(matches!(cleanup_step("c", Some(status(None, Some(9))), 0), Poll::Fail(Error::Failed(_, _))));
}

#[test]
fn stop_escalates_after_five_seconds() {
    match stop_step("\"app\"", Some(status(None, Some(15))), 0).as_slice() {
        [StopAction::Signal(k), StopAction::Exited(st)] => {
            assert_eq!(k, "-KILL");
            assert_eq!((st.signal, st.raw), (Some(15), 15));
        }
        other => panic!("unexpected {:?}", other),
    }
    assert!(matches!(stop_step("a", None, 4 * SEC).as_slice(), [StopAction::Sleep(POLL_NS)]));
    match stop_step("\"app\"", None, 5 * SEC).as_slice() {
        [StopAction::Signal(k), StopAction::Reap, StopAction::Fail(Error::Timeout(m))] => {
            assert_eq!(k, "-KILL");
            assert_eq!(m, "stopping \"app\"");
        }
        other => panic!("unexpected {:?}", other),
    }
    assert_eq!(Error::Timeout("stopping \"app\"".into()).to_string(), "timed out: stopping \"app\"");
}

#[test]
fn failures_keep_the_whole_status() {
    match exec_step("c", &OK, Some(status(Some(42), None))) {
        Poll::Fail(Error::Failed(_, st)) => assert_eq!((st.code, st.raw), (Some(42), 42 << 8)),
        other => panic!("unexpected {:?}", other),
    }
    match cleanup_step("c", Some(status(None, Some(9))), 0) {
        Poll::Fail(Error::Failed(_, st)) => assert_eq!(st.raw, 9),
        other => panic!("unexpected {:?}", other),
    }
    match capture_outcome("f", status(Some(1), None)) {
        Err(Error::Failed(_, st)) => assert_eq!(st.raw, 1 << 8),
        other => panic!("unexpected {:?}", other),
    }
}

#[test]
fn display_number_handshake() {
    assert!(matches!(display_step(&OK, "", 0), Poll::Wait(POLL_NS)));
    assert!(matches!(display_step(&OK, "9", 0), Poll::Wait(POLL_NS)));
    match display_step(&OK, "99\n", 0) {
        Poll::Ready(name) => assert_eq!(name, ":99"),
        other => panic!("unexpected {:?}", other),
    }
    match display_step(&OK, " 0 \n", 11 * SEC) {
        Poll::Ready(name) => assert_eq!(name, ":0"),
        other => panic!("unexpected {:?}", other),
    }
    match display_step(&OK, "x\n", 0) {
        Poll::Fail(Error::Invalid(m)) => assert_eq!(m, "invalid Xvfb display number"),
        other => panic!("unexpected {:?}", other),
    }
    match display_step(&OK, "", 10 * SEC) {
        Poll::Fail(Error::Timeout(m)) => assert_eq!(m, "starting Xvfb"),
        other => panic!("unexpected {:?}", other),
    }
}

#[test]
fn window_search_retries() {
    match window_step("demo", &OK, Search::Found("4194305\n4194306\n".into()), 0) {
        WindowStep::Place(w) => assert_eq!(w, "4194305"),
        other => panic!("unexpected {:?}", other),
    }
    assert!(matches!(window_step("demo", &OK, Search::Found(String::new()), 0), WindowStep::Retry(WINDOW_RETRY_NS)));
    assert!(matches!(window_step("demo", &OK, Search::CommandFailed, 0), WindowStep::Retry(WINDOW_RETRY_NS)));
    assert!(matches!(window_step("demo", &OK, Search::OtherError, 0), WindowStep::PassOn));
    assert!(matches!(window_step("demo", &OK, Search::OtherError, 30 * SEC), WindowStep::PassOn));
    match window_step("missing-window", &OK, Search::Found(String::new()), 20 * SEC) {
        WindowStep::Fail(Error::Timeout(m)) => assert_eq!(m, "waiting for window class missing-window"),
        other => panic!("unexpected {:?}", other),
    }
    match window_step("missing-window", &OK, Search::CommandFailed, 20 * SEC) {
        WindowStep::Fail(Error::Timeout(_)) => {}
        other => panic!("unexpected {:?}", other),
    }
}

#[test]
fn progress_starts_capture() {
    assert!(matches!(progress_step(0, 0), Poll::Wait(POLL_NS)));
    assert!(matches!(progress_step(12, 20 * SEC), Poll::Ready(())));
    match progress_step(0, 10 * SEC) {
        Poll::Fail(Error::Timeout(m)) => assert_eq!(m, "starting FFmpeg"),
        other => panic!("unexpected {:?}", other),
    }
}

#[test]
fn capture_accepts_success_and_255() {
    assert!(capture_outcome("f", status(Some(0), None)).is_ok());
    assert!(capture_outcome("f", status(Some(255), None)).is_ok());
    assert!(matches!(capture_outcome("f", status(Some(1), None)), Err(Error::Failed(_, _))));
    assert!(capture_outcome("f", status(None, Some(9))).is_err());
}

#[test]
fn signalling_fails_only_for_running_processes() {
    assert!(signal_outcome("p", true, true).is_ok());
    assert!(signal_outcome("p", false, false).is_ok());
    match signal_outcome("\"Xvfb\"", false, true) {
        Err(Error::Io(m)) => assert_eq!(m, "could not signal \"Xvfb\""),
        other => panic!("unexpected {:?}", other),
    }
}
