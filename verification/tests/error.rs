use kinestra::error::{Error, Status};
use kinestra::run_exit_code;

fn status(code: Option<i32>, signal: Option<i32>, text: &str) -> Status {
    Status { code, signal, text: text.to_string(), raw: 0 }
}

#[test]
fn error_reports() {
    assert_eq!(Error::Io("no such file".into()).to_string(), "no such file");
    assert_eq!(Error::Invalid("bad".into()).to_string(), "bad");
    assert_eq!(
        Error::Failed("\"ffmpeg\"".into(), status(Some(1), None, "exit status: 1")).to_string(),
        "\"ffmpeg\": exit status: 1"
    );
    assert_eq!(Error::Interrupted(15).to_string(), "interrupted by signal 15");
    assert_eq!(Error::Interrupted(-3).to_string(), "interrupted by signal -3");
    assert_eq!(Error::Timeout("starting Xvfb".into()).to_string(), "timed out: starting Xvfb");
}

#[test]
fn exit_codes_of_scenarios() {
    // SIGTERM, SIGINT, a command exiting 42, an ordinary failure.
    assert_eq!(Error::Interrupted(15).exit_code(), 143);
    assert_eq!(Error::Interrupted(2).exit_code(), 130);
    assert_eq!(Error::Failed("x".into(), status(Some(42), None, "")).exit_code(), 42);
    assert_eq!(Error::Invalid("intentional scenario failure".into()).exit_code(), 1);
    assert_eq!(Error::Timeout("t".into()).exit_code(), 1);
    assert_eq!(Error::Io("e".into()).exit_code(), 1);
}

#[test]
fn exit_codes_of_odd_statuses() {
    // Killed by SIGKILL; exit code 0 reported as a failure; codes beyond a byte.
    assert_eq!(Error::Failed("x".into(), status(None, Some(9), "")).exit_code(), 137);
    assert_eq!(Error::Failed("x".into(), status(Some(0), None, "")).exit_code(), 1);
    assert_eq!(Error::Failed("x".into(), status(Some(0), Some(6), "")).exit_code(), 134);
    assert_eq!(Error::Failed("x".into(), status(Some(300), None, "")).exit_code(), 1);
    assert_eq!(Error::Failed("x".into(), status(Some(-1), None, "")).exit_code(), 1);
    assert_eq!(Error::Failed("x".into(), status(None, None, "")).exit_code(), 1);
    assert_eq!(Error::Interrupted(200).exit_code(), 1);
    assert_eq!(Error::Interrupted(i32::MAX).exit_code(), 1);
}

#[test]
fn run_succeeds_with_zero() {
    assert_eq!(run_exit_code(&Ok(())), 0);
    assert_eq!(run_exit_code(&Err(Error::Interrupted(15))), 143);
}

#[test]
fn status_success_is_exit_zero() {
    assert!(status(Some(0), None, "").success());
    assert!(!status(Some(1), None, "").success());
    assert!(!status(None, Some(15), "").success());
}
