use iftpfm2::driver::{dispatch_order, should_start_rule};
use iftpfm2::instance::{instance_path, GuardCommand, GuardEvent, GuardPhase, InstanceGuard};
use iftpfm2::logging::{format_record, is_debug_enabled, log, log_debug, log_with_thread, set_debug_mode, set_log_file, LogSettings, LogTarget};
use iftpfm2::protocol::login_password;
use iftpfm2::config::Protocol;
use iftpfm2::shutdown::{
    is_shutdown_message, is_shutdown_requested, request_shutdown, signal_code, signal_from_code, signal_name, ShutdownState,
    SignalKind,
};
use iftpfm2::text::{collapse_newlines, join_remote_path, str_equals};

#[test]
fn supersede_after_grace_period() {
    let mut g = InstanceGuard::new(5);
    assert_eq!(g.step(GuardEvent::Begin), GuardCommand::TryLock);
    assert_eq!(g.step(GuardEvent::Refused), GuardCommand::ConnectSocket);
    assert_eq!(g.step(GuardEvent::Succeeded), GuardCommand::ReadPid);
    assert_eq!(g.step(GuardEvent::Pid(321)), GuardCommand::SendTerminate(321));
    let mut probes = 0;
    let mut c = g.step(GuardEvent::Succeeded);
    while c == GuardCommand::WaitThenProbe(321) {
        probes += 1;
        c = g.step(GuardEvent::Alive);
    }
    assert_eq!(probes, 10);
    assert_eq!(c, GuardCommand::ForceKill(321));
    assert_eq!(g.step(GuardEvent::Succeeded), GuardCommand::TryLock);
    assert_eq!(g.step(GuardEvent::Acquired), GuardCommand::WritePidAndBind);
    assert_eq!(g.step(GuardEvent::Succeeded), GuardCommand::Proceed);
    assert_eq!(g.phase(), GuardPhase::Ready);
}

#[test]
fn old_instance_exits_within_grace() {
    let mut g = InstanceGuard::new(30);
    g.step(GuardEvent::Begin);
    g.step(GuardEvent::Refused);
    g.step(GuardEvent::Succeeded);
    g.step(GuardEvent::Pid(9));
    assert_eq!(g.step(GuardEvent::Succeeded), GuardCommand::WaitThenProbe(9));
    assert_eq!(g.step(GuardEvent::Alive), GuardCommand::WaitThenProbe(9));
    assert_eq!(g.step(GuardEvent::Exited), GuardCommand::TryLock);
    assert_eq!(g.step(GuardEvent::Refused), GuardCommand::GiveUp);
    assert_eq!(g.phase(), GuardPhase::Failed);
}

#[test]
fn stale_socket_and_first_lock() {
    let mut g = InstanceGuard::new(1);
    g.step(GuardEvent::Begin);
    assert_eq!(g.step(GuardEvent::Refused), GuardCommand::ConnectSocket);
    assert_eq!(g.step(GuardEvent::Failed), GuardCommand::UnlinkSocket);
    assert_eq!(g.step(GuardEvent::Succeeded), GuardCommand::TryLock);
    let mut h = InstanceGuard::new(1);
    h.step(GuardEvent::Begin);
    assert_eq!(h.step(GuardEvent::Acquired), GuardCommand::WritePidAndBind);
    let mut z = InstanceGuard::new(0);
    z.step(GuardEvent::Begin);
    z.step(GuardEvent::Refused);
    z.step(GuardEvent::Succeeded);
    z.step(GuardEvent::Pid(5));
    assert_eq!(z.step(GuardEvent::Succeeded), GuardCommand::ForceKill(5));
}

#[test]
fn instance_paths() {
    assert_eq!(instance_path(Some("/run/user/1000"), "/tmp", "iftpfm2", 1000, ".pid"), "/run/user/1000/iftpfm2.pid");
    assert_eq!(instance_path(None, "/tmp", "iftpfm2", 1000, ".sock"), "/tmp/iftpfm2_1000.sock");
}

#[test]
fn control_socket_message() {
    assert!(is_shutdown_message(b"SHUTDOWN", 8));
    assert!(!is_shutdown_message(b"SHUTDOWN", 7));
    assert!(!is_shutdown_message(b"SHUTDOWX", 8));
    assert!(!is_shutdown_message(b"SHUT", 4));
}

#[test]
fn shutdown_state() {
    let mut s = ShutdownState::new();
    assert!(!is_shutdown_requested(&s));
    assert!(should_start_rule(&s));
    request_shutdown(&mut s);
    assert!(is_shutdown_requested(&s));
    assert!(!should_start_rule(&s));
    assert_eq!(s.kind(), SignalKind::NoSignal);
    s.request_with_kind(SignalKind::Terminate);
    assert_eq!(s.kind(), SignalKind::Terminate);
    assert_eq!(signal_from_code(signal_code(SignalKind::Interrupt)), SignalKind::Interrupt);
    assert_eq!(signal_from_code(9), SignalKind::NoSignal);
    assert_eq!(signal_name(SignalKind::Interrupt), "SIGINT");
}

#[test]
fn records() {
    assert_eq!(format_record("2024-01-02 03:04:05", Some(1), "test message 2"), "2024-01-02 03:04:05 [T1] test message 2\n");
    assert_eq!(format_record("ts", None, "a\nb"), "ts a b\n");
    let r = log("test message 1");
    assert!(r.ends_with(" test message 1\n"));
    let r = log_with_thread("test message 2", Some(1));
    assert!(r.contains("[T1] test message 2"));
    assert_eq!(r.len(), "2024-01-02 03:04:05 [T1] test message 2\n".len());
}

#[test]
fn debug_gate_and_target() {
    let mut s = LogSettings::new();
    assert!(!is_debug_enabled(&s));
    assert_eq!(log_debug(&s, "x", None), None);
    set_debug_mode(&mut s, true);
    assert!(is_debug_enabled(&s));
    assert!(log_debug(&s, "temp path", Some(3)).unwrap().ends_with(" [T3] temp path\n"));
    set_log_file(&mut s, "/tmp/x.log".to_string());
    assert!(matches!(s.target, LogTarget::File(ref p) if p == "/tmp/x.log"));
}

#[test]
fn dispatch_orders() {
    assert_eq!(dispatch_order(4, false), vec![0, 1, 2, 3]);
    let mut r = dispatch_order(50, true);
    r.sort();
    assert_eq!(r, (0..50).collect::<Vec<usize>>());
    assert!(dispatch_order(0, true).is_empty());
}

#[test]
fn text_helpers() {
    assert_eq!(join_remote_path("/data/in//", "f.txt"), "/data/in/f.txt");
    assert_eq!(join_remote_path("/", "f.txt"), "/f.txt");
    assert_eq!(join_remote_path("rel", "f"), "rel/f");
    assert_eq!(collapse_newlines("a\nb\n"), "a b ");
    assert!(str_equals("ab", "ab"));
    assert!(!str_equals("ab", "abc"));
}

#[test]
fn login_passwords() {
    assert_eq!(login_password(Protocol::Sftp, None, true), Some(String::new()));
    assert_eq!(login_password(Protocol::Ftp, None, false), None);
    assert_eq!(login_password(Protocol::Ftp, Some("pw"), false), Some("pw".to_string()));
}

#[test]
fn test_log_to_stdout() {
    let a = log("test stdout message 1");
    let b = log_with_thread("test stdout message 2", Some(2));
    assert!(a.contains("test stdout message 1"));
    assert!(b.contains("[T2] test stdout message 2"));
}
