use ffit::commands::require_running;
use ffit::commands::start::{exhausted_failure, poll_verdict, precheck, precheck_given, StartPoll};
use ffit::commands::status::{execute as status_execute, status_from, StatusReport};
use ffit::commands::stop::{execute as stop_execute, stop_step, StopStep};
use ffit::config::CtlConfig;
use ffit::errors::CtlError;
use ffit::lifecycle::{detach_decision, phase_step, DaemonEvent, DaemonPhase, DetachDecision};
use ffit::listener::{plan_listeners, ListenAddr, ServerConfig};
use ffit::process::remove_pid_file;
use ffit::shutdown::ShutdownSignal;
use ffit::transport::{connect_attempts, connect_order, TransportKind};

fn own_pid() -> i32 {
    nix::unistd::getpid().as_raw()
}

fn temp_path(tag: &str) -> String {
    format!("/tmp/ffit-test-{}-{}.pid", own_pid(), tag)
}

fn write_file(path: &str, content: &[u8]) {
    let rt = tokio::runtime::Runtime::new().unwrap();
    rt.block_on(tokio::fs::write(path, content)).expect("write test file");
}

fn config_with_pid_file(pid_file: &str) -> CtlConfig {
    let mut config = CtlConfig::default();
    config.pid_file = pid_file.to_string();
    config
}

#[test]
fn test_transport_fallback_order() {
    // Forcing the network transport goes straight to it.
    assert_eq!(connect_attempts(true, true), vec![TransportKind::Network]);
    assert_eq!(connect_attempts(true, false), vec![TransportKind::Network]);
    // A missing local-socket path causes immediate use of the network
    // transport.
    assert_eq!(connect_attempts(false, false), vec![TransportKind::Network]);
    // An existing local socket is tried first, with the network as the
    // fallback should the socket prove unreachable.
    assert_eq!(
        connect_attempts(false, true),
        vec![TransportKind::LocalSocket, TransportKind::Network]
    );
}

#[test]
fn test_connect_order_without_socket() {
    let mut config = CtlConfig::default();
    config.socket = format!("/tmp/ffit-test-{}-nosock.sock", own_pid());
    assert_eq!(connect_order(&config), vec![TransportKind::Network]);
}

#[test]
fn test_connect_order_with_socket_artifact() {
    let socket = format!("/tmp/ffit-test-{}-sock.sock", own_pid());
    write_file(&socket, b"");
    let mut config = CtlConfig::default();
    config.socket = socket.clone();
    assert_eq!(
        connect_order(&config),
        vec![TransportKind::LocalSocket, TransportKind::Network]
    );
    remove_pid_file(&socket);
}

#[test]
fn test_start_conflict_precheck() {
    // A live daemon fails a second start immediately.
    match precheck_given(true) {
        Err(CtlError::AlreadyRunning) => {},
        other => panic!("expected AlreadyRunning, got {:?}", other),
    }
    assert!(precheck_given(false).is_ok());

    // A PID file naming this live process blocks the start.
    let path = temp_path("precheck");
    write_file(&path, format!("{}\n", own_pid()).as_bytes());
    let config = config_with_pid_file(&path);
    match precheck(&config) {
        Err(CtlError::AlreadyRunning) => {},
        other => panic!("expected AlreadyRunning, got {:?}", other),
    }

    // After a clean stop the PID file is gone and a start may proceed.
    remove_pid_file(&path);
    assert!(precheck(&config).is_ok());
}

#[test]
fn test_start_poll_verdicts() {
    assert_eq!(poll_verdict(true, true, true), StartPoll::Verified);
    assert_eq!(poll_verdict(false, true, true), StartPoll::Retry);
    assert_eq!(poll_verdict(true, false, true), StartPoll::Retry);
    assert_eq!(poll_verdict(true, true, false), StartPoll::Retry);
}

#[test]
fn test_start_exhausted_failure_messages() {
    match exhausted_failure(true) {
        CtlError::DaemonStartFailed(m) => {
            assert_eq!(m, "another daemon instance may have started concurrently")
        },
        other => panic!("expected DaemonStartFailed, got {:?}", other),
    }
    match exhausted_failure(false) {
        CtlError::DaemonStartFailed(m) => {
            assert_eq!(m, "daemon process exited without creating PID file (check logs for errors)")
        },
        other => panic!("expected DaemonStartFailed, got {:?}", other),
    }
}

#[test]
fn test_shutdown_idempotence() {
    let mut signal = ShutdownSignal::new();
    signal.subscribe();
    signal.subscribe();
    signal.subscribe();

    signal.trigger();
    assert!(signal.triggered);
    // Every subscriber present at the first trigger is notified exactly
    // once.
    assert_eq!(signal.notified, 3);

    let after_first = signal.clone();
    // Triggering 2 or 10 times produces identical observable state.
    for _ in 0..9 {
        signal.trigger();
        assert_eq!(signal, after_first);
    }

    // A later subscriber is woken by the already fired channel, not by a
    // new notification.
    signal.subscribe();
    signal.trigger();
    assert_eq!(signal.notified, 3);
}

#[test]
fn test_listener_planning() {
    match plan_listeners(ServerConfig::default()) {
        Err(ffit::errors::DaemonError::NoListenersConfigured) => {},
        other => panic!("expected NoListenersConfigured, got {:?}", other),
    }

    let tcp_only = ServerConfig::default().with_tcp("[::1]:50051".to_string());
    assert_eq!(
        plan_listeners(tcp_only).unwrap(),
        vec![ListenAddr::Tcp("[::1]:50051".to_string())]
    );

    let both = ServerConfig::default()
        .with_tcp("[::1]:50051".to_string())
        .with_uds("/tmp/x.sock".to_string());
    assert_eq!(
        plan_listeners(both).unwrap(),
        vec![
            ListenAddr::Tcp("[::1]:50051".to_string()),
            ListenAddr::Unix("/tmp/x.sock".to_string()),
        ]
    );
}

#[test]
fn test_listener_display_and_cleanup() {
    let tcp = ListenAddr::tcp("[::1]:50051".to_string());
    assert_eq!(tcp.display_string(), "tcp://[::1]:50051");
    assert_eq!(tcp.artifact_path(), None);
    tcp.cleanup();

    let path = format!("/tmp/ffit-test-{}-listener.sock", own_pid());
    let unix = ListenAddr::unix(path.clone());
    assert_eq!(unix.display_string(), format!("unix://{}", path));
    assert_eq!(unix.artifact_path(), Some(path.as_str()));

    // A stale artifact is removed before binding would happen.
    write_file(&path, b"");
    unix.remove_stale_artifact();
    assert!(!std::path::Path::new(&path).exists());

    // Cleanup after shutdown removes the artifact of the run itself.
    write_file(&path, b"");
    unix.cleanup();
    assert!(!std::path::Path::new(&path).exists());
}

#[test]
fn test_lifecycle_walk() {
    let p = DaemonPhase::NotStarted;
    let p = phase_step(p, DaemonEvent::Detached).unwrap();
    assert_eq!(p, DaemonPhase::Daemonized);
    let p = phase_step(p, DaemonEvent::LockAcquired).unwrap();
    assert_eq!(p, DaemonPhase::Locked);
    let p = phase_step(p, DaemonEvent::ListenersBound).unwrap();
    assert_eq!(p, DaemonPhase::Serving);
    let p = phase_step(p, DaemonEvent::StopRequested).unwrap();
    assert_eq!(p, DaemonPhase::Draining);
    let p = phase_step(p, DaemonEvent::Drained).unwrap();
    assert_eq!(p, DaemonPhase::Stopped);

    // Binding listeners before the lock is not a lifecycle transition.
    assert_eq!(phase_step(DaemonPhase::NotStarted, DaemonEvent::ListenersBound), None);
    // The foreground path reaches the lock as well.
    let q = phase_step(DaemonPhase::NotStarted, DaemonEvent::StayedForeground).unwrap();
    assert_eq!(q, DaemonPhase::Foreground);
    assert_eq!(phase_step(q, DaemonEvent::LockAcquired), Some(DaemonPhase::Locked));
}

#[test]
fn test_detach_decision_cases() {
    assert_eq!(detach_decision(true, true), DetachDecision::StayForeground);
    assert_eq!(detach_decision(true, false), DetachDecision::StayForeground);
    assert_eq!(detach_decision(false, true), DetachDecision::Detach);
    assert_eq!(detach_decision(false, false), DetachDecision::FallbackForeground);
}

#[test]
fn test_status_from_mapping() {
    assert_eq!(status_from(Some(7), true), StatusReport::Running(7));
    assert_eq!(status_from(Some(7), false), StatusReport::NotRunning);
    assert_eq!(status_from(None, false), StatusReport::NotRunning);
}

#[test]
fn test_status_stale_file_not_running() {
    let path = temp_path("stalestatus");
    write_file(&path, b"999999999\n");
    let config = config_with_pid_file(&path);
    assert_eq!(status_execute(&config), StatusReport::NotRunning);
    write_file(&path, b"gibberish\n");
    assert_eq!(status_execute(&config), StatusReport::NotRunning);
    remove_pid_file(&path);
    assert_eq!(status_execute(&config), StatusReport::NotRunning);
}

#[test]
fn test_stop_when_not_running() {
    let path = temp_path("stopnone");
    let config = config_with_pid_file(&path);
    match stop_execute(&config) {
        Err(CtlError::DaemonNotRunning) => {},
        other => panic!("expected DaemonNotRunning, got {:?}", other),
    }
}

#[test]
fn test_status_flips_when_process_dies() {
    let rt = tokio::runtime::Runtime::new().unwrap();
    rt.block_on(async {
        let mut child = tokio::process::Command::new("sleep")
            .arg("30")
            .spawn()
            .expect("spawn sleeper");
        let pid = child.id().expect("child pid") as i32;

        let path = temp_path("statusflip");
        tokio::fs::write(&path, format!("{}\n", pid)).await.unwrap();
        let config = config_with_pid_file(&path);

        assert_eq!(status_execute(&config), StatusReport::Running(pid));
        assert!(require_running(&config).is_ok());

        // Kill the process without touching the file: the report flips.
        child.kill().await.expect("kill sleeper");
        let _ = child.wait().await;
        assert_eq!(status_execute(&config), StatusReport::NotRunning);
        match require_running(&config) {
            Err(CtlError::DaemonNotRunning) => {},
            other => panic!("expected DaemonNotRunning, got {:?}", other),
        }

        remove_pid_file(&path);
    });
}

#[test]
fn test_stop_graceful_path() {
    let rt = tokio::runtime::Runtime::new().unwrap();
    rt.block_on(async {
        let mut child = tokio::process::Command::new("sleep")
            .arg("30")
            .spawn()
            .expect("spawn sleeper");
        let pid = child.id().expect("child pid") as i32;

        let path = temp_path("stopgrace");
        tokio::fs::write(&path, format!("{}\n", pid)).await.unwrap();
        let config = config_with_pid_file(&path);

        let reaper = tokio::spawn(async move {
            let _ = child.wait().await;
        });
        let cfg = config.clone();
        let result = tokio::task::spawn_blocking(move || stop_execute(&cfg)).await.unwrap();
        assert!(result.is_ok(), "graceful stop must succeed, got {:?}", result);
        // The PID file is removed only once death is confirmed.
        assert!(!std::path::Path::new(&path).exists());
        let _ = reaper.await;
    });
}

#[test]
fn test_stop_escalates_to_forceful_kill() {
    let rt = tokio::runtime::Runtime::new().unwrap();
    rt.block_on(async {
        // A process that ignores the graceful signal for its whole life.
        let mut child = tokio::process::Command::new("sh")
            .arg("-c")
            .arg("trap '' TERM; sleep 30")
            .spawn()
            .expect("spawn stubborn child");
        let pid = child.id().expect("child pid") as i32;

        let path = temp_path("stopescalate");
        tokio::fs::write(&path, format!("{}\n", pid)).await.unwrap();
        let config = config_with_pid_file(&path);

        let reaper = tokio::spawn(async move {
            let _ = child.wait().await;
        });
        let cfg = config.clone();
        let result = tokio::task::spawn_blocking(move || stop_execute(&cfg)).await.unwrap();
        // The graceful budget is exhausted, the forceful signal follows,
        // and the PID file is removed only after confirmed death.
        assert!(result.is_ok(), "escalated stop must succeed, got {:?}", result);
        assert!(!std::path::Path::new(&path).exists());
        assert!(!ffit::process::process_exists(pid));
        let _ = reaper.await;
    });
}

#[test]
fn test_stop_step_decisions() {
    // Observed death confirms the stop at any point in the budget.
    assert_eq!(stop_step(0, false), StopStep::Confirmed);
    assert_eq!(stop_step(29, false), StopStep::Confirmed);
    // A live process polls again while attempts remain.
    assert_eq!(stop_step(0, true), StopStep::PollAgain);
    assert_eq!(stop_step(28, true), StopStep::PollAgain);
    // The thirtieth failed poll exhausts the graceful budget.
    assert_eq!(stop_step(29, true), StopStep::Exhausted);
}
