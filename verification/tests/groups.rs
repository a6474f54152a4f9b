use shell_executor::parallel::{
    child_state, compute_parent_status, outcome_state, outcomes_report, status_to_exit_code,
};
use shell_executor::status::{Outcome, OutputCapture};
use shell_executor::{parallel, ChildState, CommandOutput, Ran, RunStatus};

fn exited(code: i32, stdout: &str, stderr: &str) -> Ran {
    Ran::Exited {
        code: Some(code),
        signal: None,
        stdout: stdout.to_string(),
        stderr: stderr.to_string(),
    }
}

fn done(code: i32) -> ChildState {
    child_state(exited(code, "", ""), 0)
}

#[test]
fn all_true_succeeds() {
    assert!(parallel(&["true", "true", "true"]).run(&[done(0), done(0), done(0)]));
}

#[test]
fn one_false_fails_group() {
    assert!(!parallel(&["true", "false", "true"]).run(&[done(0), done(1), done(0)]));
}

#[test]
fn empty_group_succeeds() {
    let cmds: Vec<&str> = vec![];
    assert!(parallel(&cmds).run(&[]));
}

#[test]
fn report_exit_code_zero_on_all_success() {
    assert_eq!(parallel(&["true", "true"]).run_report(&[done(0), done(0)], 0, "2026-04-04 10:16:02").report.exit_code, 0);
}

#[test]
fn report_exit_code_one_on_any_failure() {
    assert_eq!(parallel(&["true", "exit 42"]).run_report(&[done(0), done(42)], 0, "2026-04-04 10:16:02").report.exit_code, 1);
}

#[test]
fn succinct_report_no_console_output_but_returns_status() {
    let group = parallel(&["true", "true"]);
    let finished = [done(0), done(0)];
    let c = group.run_succinct_report(&finished, 0, "2026-04-04 10:16:02");
    assert_eq!(c.block, "");
    let report = c.report;
    assert_eq!(report.status, RunStatus::Success);
    assert_eq!(report.exit_code, 0);
}

#[test]
fn succinct_report_failure_returns_one() {
    let report = parallel(&["true", "false"]).run_succinct_report(&[done(0), done(1)], 0, "2026-04-04 10:16:02").report;
    assert_eq!(report.status, RunStatus::Failure);
    assert_eq!(report.exit_code, 1);
}

#[test]
fn parent_label_defaults_to_count() {
    let g = parallel(&["true", "true"]);
    assert_eq!(g.parent_label(2), "2 parallel commands");
    let g = g.message("build pipeline");
    assert_eq!(g.parent_label(2), "build pipeline");
}

#[test]
fn child_classification() {
    match done(0) {
        ChildState::Done { status, .. } => assert_eq!(status, RunStatus::Success),
        ChildState::Running => panic!("expected done"),
    }
    match child_state(Ran::Exited { code: None, signal: Some(15), stdout: String::new(), stderr: String::new() }, 3) {
        ChildState::Done { status, output, elapsed_secs } => {
            assert_eq!(status, RunStatus::Interrupted);
            assert_eq!(output.exit_code, 143);
            assert_eq!(elapsed_secs, 3);
        }
        ChildState::Running => panic!("expected done"),
    }
    match child_state(Ran::SpawnFailed { reason: "nope".to_string() }, 0) {
        ChildState::Done { status, output, .. } => {
            assert_eq!(status, RunStatus::Failure);
            assert_eq!(output.stderr, "Failed to spawn command: nope");
        }
        ChildState::Running => panic!("expected done"),
    }
}

#[test]
fn running_children_count_against_success() {
    assert_eq!(compute_parent_status(&[done(0), ChildState::Running]), RunStatus::Failure);
    assert_eq!(
        compute_parent_status(&[ChildState::Running, child_state(Ran::Exited { code: None, signal: Some(2), stdout: String::new(), stderr: String::new() }, 0)]),
        RunStatus::Interrupted
    );
    assert_eq!(status_to_exit_code(RunStatus::Interrupted), 1);
    assert_eq!(status_to_exit_code(RunStatus::Success), 0);
}

#[test]
fn final_block_shows_children_and_failed_bodies() {
    let g = parallel(&["echo silent", "echo loud >&2; false"]).quiet();
    let finished = [
        child_state(exited(0, "silent\n", ""), 0),
        child_state(exited(1, "", "loud\n"), 1),
    ];
    let c = g.run_report(&finished, 1, "2026-04-04 10:16:02");
    assert_eq!(
        c.block,
        "[ \x1b[31m✘\x1b[0m ] 2 parallel commands\n    [ \x1b[32m✓\x1b[0m ] echo silent\n    [ \x1b[31m✘\x1b[0m ] echo loud >&2; false\n        loud\n"
    );
    assert!(c.log_entry.is_none());
}

#[test]
fn quiet_failure_still_shown_in_log() {
    let g = parallel(&["echo silent", "echo loud >&2; false"]).quiet().log("/tmp/group.log");
    let finished = [
        child_state(exited(0, "silent\n", ""), 0),
        child_state(exited(1, "", "loud\n"), 0),
    ];
    let entry = g.run_report(&finished, 0, "2026-04-04 10:16:02").log_entry.expect("log entry");
    assert!(!entry.contains("\t\tsilent"), "quiet success body should be omitted");
    assert!(entry.contains("\t\tloud"), "failure body should still be present");
    assert!(!entry.contains('\x1b'));
}

#[test]
fn log_entry_lists_children() {
    let g = parallel(&["echo first", "echo second"]).message("two echoes").log("/tmp/x.log");
    let finished = [child_state(exited(0, "first\n", ""), 0), child_state(exited(0, "second\n", ""), 0)];
    let entry = g.run_report(&finished, 0, "2026-04-04 10:16:02").log_entry.expect("log entry");
    assert!(entry.contains("two echoes"));
    assert!(entry.contains("\t[ ✓ 00:00:00 ] echo first\n"));
    assert!(entry.contains("\t[ ✓ 00:00:00 ] echo second\n"));
}

#[test]
fn group_log_without_bodies_in_succinct_mode() {
    let g = parallel(&["echo body", "true"]).log("/tmp/x.log");
    let finished = [child_state(exited(0, "body\n", ""), 0), done(0)];
    let entry = g.run_succinct_report(&finished, 0, "2026-04-04 10:16:02").log_entry.expect("log entry");
    assert!(entry.contains("echo body"));
    assert!(!entry.contains("\t\tbody"));
}

#[test]
fn empty_group_prints_success_line_and_logs() {
    let cmds: Vec<&str> = vec![];
    let g = parallel(&cmds).log("/tmp/x.log");
    let c = g.run_report(&[], 0, "2026-04-04 10:16:02");
    assert_eq!(c.report.exit_code, 0);
    assert_eq!(c.block, "[ \x1b[32m✓\x1b[0m ] 0 parallel commands\n");
    assert_eq!(c.log_entry.as_deref(), Some("[2026-04-04 10:16:02] [ ✓ 00:00:00 ] 0 parallel commands\n"));
    let s = parallel(&cmds).log("/tmp/x.log").run_succinct_report(&[], 0, "2026-04-04 10:16:02");
    assert_eq!(s.log_entry.as_deref(), Some("[2026-04-04 10:16:02] [ ✓ 00:00:00 ] 0 parallel commands\n"));
}

#[test]
fn group_keeps_child_output_up_to_its_limit() {
    let g = parallel(&["yes"]).max_output(3);
    let ran = g.exited_run(Some(0), None, b"y\ny\ny", b"");
    match ran {
        Ran::Exited { stdout, .. } => assert_eq!(stdout, "y\ny\n... [output truncated at 3 bytes]"),
        _ => panic!("expected an exited run"),
    }
}

#[test]
fn live_frame_shows_spinner_and_finished_children() {
    let g = parallel(&["true", "sleep 1"]).show_time();
    let labels = g.child_labels();
    let states = [done(0), ChildState::Running];
    let f = g.frame(&labels, &states, 1, 65);
    assert_eq!(
        f,
        "\x1b[2K\r[ \\ 00:01:05 ] 2 parallel commands\x1b[1E\x1b[2K    [ \x1b[32m✓\x1b[0m 00:00:00 ] true\x1b[1E\x1b[2K    [ \\ 00:01:05 ] sleep 1"
    );
}

#[test]
fn outcomes_fold_like_states() {
    let outcomes = [
        Outcome { status: RunStatus::Success, output: OutputCapture::Inherited, elapsed_secs: 1, label: "a".to_string(), signal_num: None },
        Outcome {
            status: RunStatus::Failure,
            output: OutputCapture::Captured(CommandOutput { stdout: "x".to_string(), stderr: String::new(), exit_code: 3 }),
            elapsed_secs: 2,
            label: "b".to_string(),
            signal_num: None,
        },
    ];
    let r = outcomes_report(&outcomes);
    assert_eq!(r.status, RunStatus::Failure);
    assert_eq!(r.exit_code, 1);
    let states = [outcome_state(&outcomes[0]), outcome_state(&outcomes[1])];
    assert_eq!(compute_parent_status(&states), RunStatus::Failure);
}

#[test]
fn group_capture_limit_defaults_and_overrides() {
    assert_eq!(parallel(&["true"]).output_limit(), 10 * 1024 * 1024);
    assert_eq!(parallel(&["true"]).max_output(64).output_limit(), 64);
}
