use kinestra::error::{Error, Status};
use kinestra::session::{
    check_outcome, close_plan, keep_first_failure, keep_work_dir, stop_signal, watched_roles,
    work_dir_from,
    CloseStep, EnvChange, Role,
};
use kinestra::{Session, Size};

fn st(code: i32) -> Status {
    Status { code: Some(code), signal: None, text: format!("exit status: {code}"), raw: code << 8 }
}

#[test]
fn display_starts_once() {
    let mut s = Session::new();
    assert!(s.begin_display().is_ok());
    s.started(Role::Xvfb);
    match s.begin_display() {
        Err(Error::Invalid(m)) => assert_eq!(m, "display already started"),
        other => panic!("unexpected {:?}", other),
    }
    let mut s = Session::new();
    s.set_display(Size::new(320, 180).unwrap(), ":5".into());
    assert!(s.begin_display().is_err());
    let (size, name) = s.display_info().unwrap();
    assert_eq!((size.to_string(), name.as_str()), ("320x180".to_string(), ":5"));
}

#[test]
fn capture_and_launch_need_a_display() {
    let mut s = Session::new();
    match s.display_info() {
        Err(Error::Invalid(m)) => assert_eq!(m, "start a display before capturing or launching"),
        other => panic!("unexpected {:?}", other),
    }
    assert!(s.begin_record().is_err());
    s.set_display(Size::new(320, 180).unwrap(), ":1".into());
    assert!(s.begin_record().is_ok());
    s.started(Role::Capture);
    match s.begin_record() {
        Err(Error::Invalid(m)) => assert_eq!(m, "recording already active"),
        other => panic!("unexpected {:?}", other),
    }
}

#[test]
fn record_releases_the_capture() {
    let mut s = Session::new();
    s.set_display(Size::new(320, 180).unwrap(), ":1".into());
    s.started(Role::Capture);
    let r = s.finish_record(Err("recipe"), Err("finalize"));
    assert_eq!(r, Err("recipe"));
    assert!(!s.has(Role::Capture));
    assert!(s.begin_record().is_ok());
    s.started(Role::Capture);
    assert_eq!(s.finish_record(Ok(()), Err("finalize")), Err("finalize"));
    assert_eq!(s.finish_record::<&str>(Ok(()), Ok(())), Ok(()));
}

#[test]
fn children_are_taken_once() {
    let mut s = Session::new();
    s.started(Role::App);
    assert!(s.has(Role::App));
    assert!(s.take(Role::App));
    assert!(!s.take(Role::App));
    assert!(!s.has(Role::App));
}

#[test]
fn close_leaves_nothing() {
    let mut s = Session::new();
    s.started(Role::Xvfb);
    s.started(Role::Capture);
    assert_eq!(s.register_cleanup(), 0);
    assert_eq!(s.register_cleanup(), 1);
    assert_eq!(s.cleanup_count(), 2);
    assert_eq!(
        s.begin_close(),
        vec![
            CloseStep::StopCapture,
            CloseStep::Cleanup(1),
            CloseStep::Cleanup(0),
            CloseStep::Stop(Role::Xvfb),
        ]
    );
    assert!(s.begin_close().is_empty());
    assert_eq!(s.cleanup_count(), 0);
    for role in [Role::Xvfb, Role::Compositor, Role::App, Role::Capture] {
        assert!(!s.has(role));
    }
}

#[test]
fn mktemp_result() {
    let path = work_dir_from(st(0), &b"/tmp/kinestra.x1\n".to_vec()).unwrap();
    assert_eq!(path, b"/tmp/kinestra.x1".to_vec());
    match work_dir_from(st(1), &b"".to_vec()) {
        Err(Error::Failed(m, s)) => assert_eq!((m.as_str(), s.code, s.raw), ("mktemp", Some(1), 256)),
        other => panic!("unexpected {:?}", other),
    }
}

#[test]
fn outputs_are_numbered() {
    let mut s = Session::new();
    assert_eq!(s.output_count(), 0);
    assert_eq!(s.next_output_file(), "command-1.stdout");
    assert_eq!(s.next_output_file(), "command-2.stdout");
    for _ in 0..8 {
        s.next_output_file();
    }
    assert_eq!(s.next_output_file(), "command-11.stdout");
}

fn env_text(changes: &[EnvChange]) -> Vec<String> {
    changes
        .iter()
        .map(|c| match c {
            EnvChange::Assign(k, v) => format!("{k}={v}"),
            EnvChange::Remove(k) => format!("-{k}"),
        })
        .collect()
}

#[test]
fn environment_isolates_children() {
    let mut s = Session::new();
    let tail = [
        "WINIT_UNIX_BACKEND=x11",
        "TERM=xterm-256color",
        "-WAYLAND_DISPLAY",
        "-XDG_SESSION_TYPE",
        "-XDG_CURRENT_DESKTOP",
        "-NO_COLOR",
    ];
    assert_eq!(env_text(&s.environment()), tail);
    s.set_display(Size::new(320, 180).unwrap(), ":9".into());
    let with = env_text(&s.environment());
    assert_eq!(with[0], "DISPLAY=:9");
    assert_eq!(with[1..], tail);
}

#[test]
fn interruption_comes_first() {
    assert!(check_outcome(0, None).is_ok());
    assert!(matches!(check_outcome(15, Some(("\"Xvfb\"", st(1)))), Err(Error::Interrupted(15))));
    match check_outcome(0, Some(("\"true\"", st(3)))) {
        Err(Error::Failed(m, s)) => {
            assert_eq!(m, "\"true\" exited unexpectedly");
            assert_eq!((s.code, s.raw), (Some(3), 3 << 8));
        }
        other => panic!("unexpected {:?}", other),
    }
}

#[test]
fn close_order() {
    assert_eq!(
        close_plan(true, 3, true, true, true),
        vec![
            CloseStep::StopCapture,
            CloseStep::Cleanup(2),
            CloseStep::Cleanup(1),
            CloseStep::Cleanup(0),
            CloseStep::Stop(Role::App),
            CloseStep::Stop(Role::Compositor),
            CloseStep::Stop(Role::Xvfb),
        ]
    );
    assert_eq!(close_plan(false, 0, false, false, true), vec![CloseStep::Stop(Role::Xvfb)]);
    assert!(close_plan(false, 0, false, false, false).is_empty());
}

#[test]
fn first_failure_is_kept() {
    let r = keep_first_failure(Err(Error::Timeout("a".into())), Err(Error::Timeout("b".into())));
    assert!(matches!(r, Err(Error::Timeout(m)) if m == "a"));
    let r = keep_first_failure(Ok(()), Err(Error::Timeout("b".into())));
    assert!(matches!(r, Err(Error::Timeout(m)) if m == "b"));
    assert!(keep_first_failure::<Error>(Ok(()), Ok(())).is_ok());
}

#[test]
fn roles() {
    assert_eq!(watched_roles(), vec![Role::Capture, Role::App, Role::Compositor, Role::Xvfb]);
    assert_eq!(stop_signal(Some(Role::Capture)), "-INT");
    assert_eq!(stop_signal(Some(Role::App)), "-TERM");
    assert_eq!(stop_signal(None), "-TERM");
}

#[test]
fn work_dir_kept_unless_clean_success() {
    assert!(!keep_work_dir(true, true, false));
    assert!(keep_work_dir(false, true, false));
    assert!(keep_work_dir(true, false, false));
    assert!(keep_work_dir(true, true, true));
}
