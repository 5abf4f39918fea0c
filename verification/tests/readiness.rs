use runtime_supervisor::error::Endpoint;
use runtime_supervisor::error::ExitReport;
use runtime_supervisor::error::RuntimeError;
use runtime_supervisor::platform::Platform;
use runtime_supervisor::readiness::process_exited_early;
use runtime_supervisor::readiness::read_log_tail;
use runtime_supervisor::readiness::wait_for_http_with_process_state;
use runtime_supervisor::readiness::wait_for_process_running;
use runtime_supervisor::readiness::ChildStatus;
use runtime_supervisor::readiness::Verdict;
use runtime_supervisor::readiness::POLL_INTERVAL_MS;
use runtime_supervisor::readiness::STDERR_TAIL_LINES;

fn exit(code: i32) -> ExitReport {
    ExitReport { code: Some(code), description: format!("exit status: {}", code) }
}

fn exited(code: i32, stderr: Option<&str>) -> ChildStatus {
    ChildStatus::Exited { report: exit(code), stderr: stderr.map(|s| s.to_string()) }
}

fn network(connected: bool, status: ChildStatus, elapsed_ms: u64) -> Verdict {
    wait_for_http_with_process_state(
        "server",
        connected,
        status,
        elapsed_ms,
        "127.0.0.1",
        5275,
        30_000,
        "/d/logs",
        Platform::Unix,
    )
}

fn liveness(status: ChildStatus, elapsed_ms: u64) -> Verdict {
    wait_for_process_running("background_runner", status, elapsed_ms, 10_000, "/d/logs", Platform::Unix)
}

fn server_port() -> Option<Endpoint> {
    Some(Endpoint { host: "127.0.0.1".to_string(), port: 5275 })
}

fn early(name: &str, code: i32, tail: &str) -> Verdict {
    Verdict::Failed {
        error: RuntimeError::ProcessExitedEarly {
            name: name.to_string(),
            status: exit(code),
            endpoint: if name == "server" { server_port() } else { None },
            stderr_log: format!("/d/logs/{}.stderr.log", name),
            stderr_tail: tail.to_string(),
        },
    }
}

#[test]
fn constants_are_a_quarter_second_and_forty_lines() {
    assert_eq!(POLL_INTERVAL_MS, 250);
    assert_eq!(STDERR_TAIL_LINES, 40);
}

#[test]
fn network_readiness_succeeds_the_instant_a_connection_completes() {
    assert_eq!(network(true, ChildStatus::Running, 0), Verdict::Ready);
    assert_eq!(network(true, ChildStatus::Running, 99_999), Verdict::Ready);
    assert_eq!(network(true, exited(1, None), 5), Verdict::Ready);
}

#[test]
fn network_readiness_waits_a_quarter_second_while_the_process_runs() {
    assert_eq!(network(false, ChildStatus::Running, 0), Verdict::Wait { millis: 250 });
    assert_eq!(network(false, ChildStatus::Running, 30_000), Verdict::Wait { millis: 250 });
}

#[test]
fn network_readiness_times_out_after_more_than_the_limit() {
    assert_eq!(
        network(false, ChildStatus::Running, 30_001),
        Verdict::Failed {
            error: RuntimeError::ReadinessTimeout {
                host: "127.0.0.1".to_string(),
                port: 5275,
                stdout_log: "/d/logs/server.stdout.log".to_string(),
                stderr_log: "/d/logs/server.stderr.log".to_string(),
            },
        }
    );
}

#[test]
fn early_exit_is_reported_before_the_timeout_has_elapsed() {
    assert_eq!(network(false, exited(3, Some("boom\n")), 10), early("server", 3, "boom"));
}

#[test]
fn early_exit_is_never_reported_as_a_timeout() {
    assert_eq!(network(false, exited(3, None), 30_001), early("server", 3, ""));
    assert_eq!(network(false, exited(3, None), u64::MAX), early("server", 3, ""));
    assert_eq!(liveness(exited(-1, Some("")), 10_000), early("background_runner", -1, ""));
}

#[test]
fn liveness_readiness_needs_the_full_window() {
    assert_eq!(liveness(ChildStatus::Running, 0), Verdict::Wait { millis: 250 });
    assert_eq!(liveness(ChildStatus::Running, 9_999), Verdict::Wait { millis: 250 });
    assert_eq!(liveness(ChildStatus::Running, 10_000), Verdict::Ready);
    assert_eq!(liveness(ChildStatus::Running, 10_001), Verdict::Ready);
}

#[test]
fn liveness_readiness_fails_at_once_when_the_process_exits() {
    assert_eq!(liveness(exited(2, Some("a\nb")), 1), early("background_runner", 2, "a\nb"));
}

#[test]
fn a_failed_status_query_ends_the_wait() {
    let expected = |name: &str| Verdict::Failed {
        error: RuntimeError::StatusCheckFailed {
            name: name.to_string(),
            detail: "denied".to_string(),
            stdout_log: format!("/d/logs/{}.stdout.log", name),
            stderr_log: format!("/d/logs/{}.stderr.log", name),
        },
    };
    assert_eq!(
        network(false, ChildStatus::Unknown { detail: "denied".to_string() }, 0),
        expected("server")
    );
    assert_eq!(
        liveness(ChildStatus::Unknown { detail: "denied".to_string() }, 20_000),
        expected("background_runner")
    );
}

#[test]
fn read_log_tail_keeps_the_last_lines() {
    assert_eq!(read_log_tail("", 40), "");
    assert_eq!(read_log_tail("one", 40), "one");
    assert_eq!(read_log_tail("one\ntwo\nthree\n", 2), "two\nthree");
    assert_eq!(read_log_tail("one\r\ntwo\r\n", 40), "one\ntwo");
    assert_eq!(read_log_tail("one\ntwo", 0), "");
    assert_eq!(read_log_tail("a\n\nb\n", 2), "\nb");
}

#[test]
fn read_log_tail_caps_at_forty_lines() {
    let log: String = (1..=100).map(|n| format!("line {}\n", n)).collect();
    let expected: Vec<String> = (61..=100).map(|n| format!("line {}", n)).collect();
    assert_eq!(read_log_tail(&log, STDERR_TAIL_LINES), expected.join("\n"));
}

#[test]
fn process_exited_early_reports_status_and_tail() {
    let log: String = (1..=45).map(|n| format!("{}\n", n)).collect();
    let expected: Vec<String> = (6..=45).map(|n| n.to_string()).collect();
    assert_eq!(
        process_exited_early("batch", exit(9), server_port(), "/d/logs", Some(log), Platform::Unix),
        RuntimeError::ProcessExitedEarly {
            name: "batch".to_string(),
            status: exit(9),
            endpoint: server_port(),
            stderr_log: "/d/logs/batch.stderr.log".to_string(),
            stderr_tail: expected.join("\n"),
        }
    );
    assert_eq!(
        process_exited_early(
            "batch",
            ExitReport { code: None, description: "signal: 9".to_string() },
            None,
            "/d/logs",
            None,
            Platform::Unix
        ),
        RuntimeError::ProcessExitedEarly {
            name: "batch".to_string(),
            status: ExitReport { code: None, description: "signal: 9".to_string() },
            endpoint: None,
            stderr_log: "/d/logs/batch.stderr.log".to_string(),
            stderr_tail: String::new(),
        }
    );
}
