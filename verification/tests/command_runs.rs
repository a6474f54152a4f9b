use shell_executor::command::{Probe, Watch};
use shell_executor::{execute, Ran, RunStatus};

fn exited(code: i32, stdout: &str, stderr: &str) -> Ran {
    Ran::Exited {
        code: Some(code),
        signal: None,
        stdout: stdout.to_string(),
        stderr: stderr.to_string(),
    }
}

fn signalled(signal: i32) -> Ran {
    Ran::Exited { code: None, signal: Some(signal), stdout: String::new(), stderr: String::new() }
}

#[test]
fn run_status_success_for_zero_exit() {
    assert_eq!(execute("true").run_status(exited(0, "", "")), RunStatus::Success);
}

#[test]
fn run_status_failure_for_nonzero_exit() {
    assert_eq!(execute("false").run_status(exited(1, "", "")), RunStatus::Failure);
}

#[test]
fn run_status_timeout_when_exceeded() {
    let cmd = execute("sleep 10").timeout(0, 200_000_000);
    let mut w = cmd.watcher(true);
    assert!(matches!(w.step(199_000_000, Probe::Running), Watch::Redraw(_)));
    assert!(matches!(w.step(200_000_000, Probe::Running), Watch::Kill));
    let status = cmd.run_status(Ran::TimedOut);
    assert_eq!(status, RunStatus::Timeout);
}

#[test]
fn run_status_interrupted_on_signal() {
    assert_eq!(execute("kill -INT $$").run_status(signalled(2)), RunStatus::Interrupted);
}

#[test]
fn run_report_propagates_exit_42() {
    assert_eq!(execute("exit 42").run_report(exited(42, "", ""), 0, "2026-04-04 10:16:02").report.exit_code, 42);
}

#[test]
fn run_report_timeout_is_124() {
    let report = execute("sleep 10").timeout(0, 200_000_000).run_report(Ran::TimedOut, 0, "2026-04-04 10:16:02").report;
    assert_eq!(report.exit_code, 124);
    assert_eq!(report.status, RunStatus::Timeout);
}

#[test]
fn run_report_interrupted_is_128_plus_signal() {
    let report = execute("kill -INT $$").run_report(signalled(2), 0, "2026-04-04 10:16:02").report;
    assert_eq!(report.exit_code, 130);
    assert_eq!(report.status, RunStatus::Interrupted);
}

#[test]
fn run_report_true_is_zero_false_is_one() {
    assert_eq!(execute("true").run_report(exited(0, "", ""), 0, "2026-04-04 10:16:02").report.exit_code, 0);
    assert_eq!(execute("false").run_report(exited(1, "", ""), 0, "2026-04-04 10:16:02").report.exit_code, 1);
}

#[test]
fn long_command_truncation() {
    let cmd = execute("echo this is a very long command that exceeds thirty characters");
    assert_eq!(cmd.display_message(), "echo this is a very long comma...");
    let result = cmd.run(exited(0, "this is a very long command that exceeds thirty characters\n", ""));
    assert!(result);
}

#[test]
fn timeout_overrides_custom_success_closure() {
    let result = execute("sleep 10")
        .timeout(0, 200_000_000)
        .success(|output| output.exit_code == 124)
        .run(Ran::TimedOut);
    assert!(!result);
}

#[test]
fn custom_closure_rejects_successful_command() {
    let result = execute("echo fine").success(|_| false).run(exited(0, "fine\n", ""));
    assert!(!result);
}

#[test]
fn stderr_output_captured() {
    let result = execute("echo err >&2")
        .success(|output| output.stderr.contains("err"))
        .run(exited(0, "", "err\n"));
    assert!(result);
}

#[test]
fn empty_command_does_not_panic() {
    let _ = execute("").run(exited(0, "", ""));
}

#[test]
fn run_capture_returns_stdout() {
    let output = execute("echo hello").run_capture(exited(0, "hello\n", ""));
    assert_eq!(output.stdout.trim(), "hello");
    assert_eq!(output.exit_code, 0);
}

#[test]
fn run_capture_returns_stderr() {
    let output = execute("echo err >&2").run_capture(exited(0, "", "err\n"));
    assert!(output.stderr.contains("err"));
}

#[test]
fn run_capture_timeout() {
    let output = execute("sleep 10").timeout(0, 200_000_000).run_capture(Ran::TimedOut);
    assert_eq!(output.exit_code, 124);
}

#[test]
fn max_output_truncates_large_output() {
    // `printf '%0.s.' $(seq 1 100)` writes 100 dots; a limit of 20 reads 21 of them.
    let cmd = execute("printf '%0.s.' $(seq 1 100)").max_output(20);
    let read: Vec<u8> = vec![b'.'; cmd.output_limit() + 1];
    let ran = cmd.exited_run(Some(0), None, &read, b"");
    let output = cmd.run_capture(ran);
    assert_eq!(output.stdout, "....................\n... [output truncated at 20 bytes]");
    assert!(output.stdout.contains("[output truncated at 20 bytes]"));
    assert!(output.stdout.starts_with("...................."));
}

#[test]
fn chained_builder_all_options() {
    let result = execute("echo chain")
        .message("Chained")
        .timeout(5, 0)
        .success(|output| output.stdout.contains("chain"))
        .run(exited(0, "chain\n", ""));
    assert!(result);
}

#[test]
fn interrupted_command_returns_false() {
    let result = execute("kill -INT $$").run(signalled(2));
    assert!(!result);
}

#[test]
fn run_succinct_report_propagates_exit_code() {
    assert_eq!(execute("exit 7").run_succinct_report(exited(7, "", ""), 0, "2026-04-04 10:16:02").report.exit_code, 7);
}

#[test]
fn run_succinct_report_timeout() {
    let report =
        execute("sleep 10").timeout(0, 200_000_000).run_succinct_report(Ran::TimedOut, 0, "2026-04-04 10:16:02").report;
    assert_eq!(report.status, RunStatus::Timeout);
    assert_eq!(report.exit_code, 124);
}

#[test]
fn spawn_failure_reports_failure_with_code_one() {
    let ran = Ran::SpawnFailed { reason: "No such file or directory".to_string() };
    let report = execute("x").run_report(ran, 0, "2026-04-04 10:16:02").report;
    assert_eq!(report.status, RunStatus::Failure);
    assert_eq!(report.exit_code, 1);
    let out = execute("x").run_capture(Ran::SpawnFailed { reason: "boom".to_string() });
    assert_eq!(out.stderr, "Failed to spawn command: boom");
    assert_eq!(out.stdout, "");
    assert_eq!(out.exit_code, 1);
}

#[test]
fn signal_without_code_in_capture_counts_as_one() {
    let out = execute("kill -INT $$").run_capture(signalled(2));
    assert_eq!(out.exit_code, 1);
}

#[test]
fn interactive_report_uses_exit_code_only() {
    assert_eq!(execute("true").run_interactive_report(Some(0), 0, "2026-04-04 10:16:02").report.status, RunStatus::Success);
    let r = execute("exit 42").run_interactive_report(Some(42), 0, "2026-04-04 10:16:02").report;
    assert_eq!(r.status, RunStatus::Failure);
    assert_eq!(r.exit_code, 42);
    assert_eq!(execute("x").run_interactive_report(None, 0, "2026-04-04 10:16:02").report.exit_code, 1);
}

#[test]
fn watcher_collects_once_exited_and_cycles_spinner() {
    let cmd = execute("echo hi");
    let mut w = cmd.watcher(true);
    let mut lines = Vec::new();
    for _ in 0..5 {
        match w.step(1_500_000_000, Probe::Running) {
            Watch::Redraw(l) => lines.push(l),
            _ => panic!("expected a redraw"),
        }
    }
    assert_eq!(lines[0], "\r[ - ] echo hi");
    assert_eq!(lines[1], "\r[ \\ ] echo hi");
    assert_eq!(lines[2], "\r[ | ] echo hi");
    assert_eq!(lines[3], "\r[ / ] echo hi");
    assert_eq!(lines[4], "\r[ - ] echo hi");
    assert!(matches!(w.step(1_500_000_000, Probe::Exited), Watch::Collect));
    assert!(matches!(w.step(1_500_000_000, Probe::Unknown), Watch::Collect));
    let mut quiet = cmd.watcher(false);
    assert!(matches!(quiet.step(0, Probe::Running), Watch::Wait));
}

#[test]
fn watcher_shows_elapsed_time_when_asked() {
    let cmd = execute("sleep 5").message("Sleeping").show_time();
    let mut w = cmd.watcher(true);
    match w.step(3_725_000_000_000, Probe::Running) {
        Watch::Redraw(l) => assert_eq!(l, "\r[ - 01:02:05 ] Sleeping"),
        _ => panic!("expected a redraw"),
    }
}
