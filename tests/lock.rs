use necko_xray::lock::{acquire_lock, get_daemon_pid, parse_pid, LockError};
use necko_xray::supervisor::{recorded_engine_pid, start_allowed, stop_target, Artifact, DaemonState, SupervisorError};

#[test]
fn pid_text_is_read_as_i32() {
    assert_eq!(parse_pid("1234\n"), Some(1234));
    assert_eq!(parse_pid("  +42 "), Some(42));
    assert_eq!(parse_pid("-7"), Some(-7));
    assert_eq!(parse_pid("2147483647"), Some(i32::MAX));
    assert_eq!(parse_pid("-2147483648"), Some(i32::MIN));
    assert_eq!(parse_pid("2147483648"), None);
    assert_eq!(parse_pid("12a"), None);
    assert_eq!(parse_pid(""), None);
    assert_eq!(parse_pid("-"), None);
    assert_eq!(get_daemon_pid(&None), None);
    assert_eq!(get_daemon_pid(&Some("77".to_string())), Some(77));
}

#[test]
fn fresh_lock_is_written() {
    let w = acquire_lock(&None, false, 4321).unwrap();
    assert!(!w.remove_stale);
    assert_eq!(w.contents, "4321");
}

#[test]
fn second_acquire_while_alive_fails() {
    let first = acquire_lock(&None, false, 1000).unwrap();
    let again = acquire_lock(&Some(first.contents.clone()), true, 2000);
    assert_eq!(again.err(), Some(LockError::AlreadyRunning(1000)));
}

#[test]
fn stale_pid_file_is_overwritten() {
    let w = acquire_lock(&Some("999".to_string()), false, 5555).unwrap();
    assert!(w.remove_stale);
    assert_eq!(w.contents, "5555");
}

#[test]
fn unreadable_pid_file_is_stale() {
    let w = acquire_lock(&Some("garbage".to_string()), true, 12).unwrap();
    assert!(w.remove_stale);
    assert_eq!(w.contents, "12");
}

#[test]
fn engine_pid_file_decisions() {
    assert_eq!(stop_target(&None), Err(SupervisorError::NotRunning));
    assert_eq!(stop_target(&Some("x".to_string())), Err(SupervisorError::BadPidFile));
    assert_eq!(stop_target(&Some("321\n".to_string())), Ok(321));
    assert_eq!(recorded_engine_pid(&Some(" 9 ".to_string())), Some(9));
    assert_eq!(start_allowed(true), Err(SupervisorError::AlreadyRunning));
    assert_eq!(start_allowed(false), Ok(()));
}

#[test]
fn daemon_state_lifecycle() {
    let mut s = DaemonState::empty();
    s.lock_acquired(10);
    s.engine_spawned(11);
    s.socket_bound();
    assert_eq!(s, DaemonState { lock_owner_pid: Some(10), engine_pid: Some(11), socket_bound: true });
    s.engine_exited();
    assert_eq!(s.engine_pid, None);
    assert!(s.socket_bound);
    let removed = s.shutdown();
    assert_eq!(removed, vec![Artifact::Socket, Artifact::EnginePidFile, Artifact::LockFile]);
    assert_eq!(s, DaemonState::empty());
}
