//! Scenarios of the `x` command line, checked on the library functions that
//! decide its exit code and compute what it prints and logs.

use shell_executor::cli::{final_exit_code, group_final_exit_code, quiet_applies, validator_applies};
use shell_executor::command::{Probe, Watch};
use shell_executor::parallel::child_state;
use shell_executor::render::{fail_line, pass_line};
use shell_executor::{execute, parallel, ChildState, Ran, RunReport, RunStatus};

fn exited(code: i32, stdout: &str, stderr: &str) -> Ran {
    Ran::Exited {
        code: Some(code),
        signal: None,
        stdout: stdout.to_string(),
        stderr: stderr.to_string(),
    }
}

fn done(code: i32, stdout: &str, stderr: &str) -> ChildState {
    child_state(exited(code, stdout, stderr), 0)
}

/// The exit code of `x main -v validator`, given how both ran.
fn with_validator(main: RunReport, validator: Ran) -> i32 {
    let v = if validator_applies(main.status) {
        Some(execute("validator").message("Validator").run_report(validator, 0, "2026-04-04 10:16:02").report)
    } else {
        None
    };
    final_exit_code(main, v)
}

/// The exit code of `x --parallel ... [-v validator]`.
fn group_code(group: RunReport, validator: Option<Ran>) -> i32 {
    let v = match validator {
        Some(ran) if validator_applies(group.status) => {
            Some(execute("validator").message("Validator").run_report(ran, 0, "2026-04-04 10:16:02").report)
        }
        _ => None,
    };
    group_final_exit_code(group, v)
}

#[test]
fn pass_does_not_panic() {
    assert!(pass_line("test message").ends_with(" ] test message"));
}

#[test]
fn fail_does_not_panic() {
    assert!(fail_line("test message").ends_with(" ] test message"));
}

#[test]
fn msg_renders_in_wrapper() {
    let c = execute("true").message("Hello World").run_report(exited(0, "", ""), 0, "2026-04-04 10:16:02");
    assert_eq!(c.report.exit_code, 0);
    let line = c.status_line.unwrap();
    assert!(line.contains("Hello World"));
    assert!(line.contains('✓'));
}

#[test]
fn msg_does_not_appear_in_log_when_log_not_passed() {
    let c = execute("true").message("X").run_report(exited(0, "", ""), 0, "2026-04-04 10:16:02");
    assert_eq!(c.report.exit_code, 0);
    assert!(c.log_entry.is_none());
}

#[test]
fn msg_value_can_contain_spaces_and_punctuation() {
    let msg = "Build #42: linking";
    let c = execute("true").message(msg).run_report(exited(0, "", ""), 0, "2026-04-04 10:16:02");
    assert!(c.report.status.is_success());
    assert!(c.status_line.unwrap().contains(msg));
}

#[test]
fn stdout_and_stderr_both_shown_indented() {
    let c = execute("echo out_a; echo err_b >&2").run_report(exited(0, "out_a\n", "err_b\n"), 0, "2026-04-04 10:16:02");
    assert!(c.body.contains("    out_a"));
    assert!(c.body.contains("    err_b"));
}

#[test]
fn large_output_first_lines_appear_indented() {
    let out = "line_1\nline_2\nline_3\nline_4\nline_5\n";
    let c = execute("for i in $(seq 1 5); do echo line_$i; done").run_report(exited(0, out, ""), 0, "2026-04-04 10:16:02");
    assert!(c.body.contains("    line_1"));
    assert!(c.body.contains("    line_3"));
    assert!(c.body.contains("    line_5"));
}

#[test]
fn output_with_special_chars_preserved() {
    let c = execute("printf 'spaces  and\\ttab\\n'").run_report(exited(0, "spaces  and\ttab\n", ""), 0, "2026-04-04 10:16:02");
    let line = c.body.lines().find(|l| l.contains("spaces  and")).unwrap();
    assert!(line.starts_with("    "));
    assert!(line.split_once("and").unwrap().1.contains('\t'));
}

#[test]
fn wrapper_appears_after_body_block_renders() {
    let c = execute("echo line1").run_report(exited(0, "line1\n", ""), 0, "2026-04-04 10:16:02");
    // The status line is printed first, the body under it.
    let printed = format!("{}\n{}", c.status_line.unwrap(), c.body);
    assert!(printed.find("[ ").unwrap() < printed.find("    line1").unwrap());
}

#[test]
fn quiet_success_omits_indented_body() {
    let cmd = execute("printf '%s%s\\n' hid denbody").quiet();
    let c = cmd.run_report(exited(0, "hiddenbody\n", ""), 0, "2026-04-04 10:16:02");
    assert!(!c.body.contains("    hiddenbody"));
    assert!(!c.body.contains("\thiddenbody"));
}

#[test]
fn quiet_failure_still_shows_output() {
    let c = execute("echo visiblebody >&2; false").quiet().run_report(exited(1, "", "visiblebody\n"), 0, "2026-04-04 10:16:02");
    assert_eq!(c.report.exit_code, 1);
    assert!(c.body.contains("visiblebody"));
    assert!(c.status_line.unwrap().contains('✘'));
}

#[test]
fn quiet_failure_shows_stdout_too() {
    let c = execute("echo onstdoutbody; false").quiet().run_report(exited(1, "onstdoutbody\n", ""), 0, "2026-04-04 10:16:02");
    assert_eq!(c.report.exit_code, 1);
    assert!(c.body.contains("onstdoutbody"));
}

#[test]
fn quiet_wrapper_still_renders() {
    let c = execute("echo h").quiet().run_report(exited(0, "h\n", ""), 0, "2026-04-04 10:16:02");
    let line = c.status_line.unwrap();
    assert!(line.contains("[ "));
    assert!(line.contains(" ] "));
    assert!(line.contains('✓'));
}

#[test]
fn default_mode_shows_wrapper() {
    let c = execute("echo hello").run_report(exited(0, "hello\n", ""), 0, "2026-04-04 10:16:02");
    let line = c.status_line.unwrap();
    assert!(line.contains("[ "));
    assert!(line.contains('✓'));
    assert!(c.body.contains("    hello"));
}

#[test]
fn succinct_passes_stdout_through() {
    // Succinct runs inherit the streams: nothing is captured, wrapped or
    // indented by the library.
    let c = execute("echo hello").run_succinct_report(exited(0, "", ""), 0, "2026-04-04 10:16:02");
    assert!(c.status_line.is_none());
    assert_eq!(c.body, "");
    assert_eq!(c.report.exit_code, 0);
}

#[test]
fn succinct_passes_stderr_through() {
    let c = execute("echo err >&2").run_succinct_report(exited(0, "", ""), 0, "2026-04-04 10:16:02");
    assert!(c.status_line.is_none());
    assert_eq!(c.body, "");
    assert!(c.report.status.is_success());
}

#[test]
fn succinct_no_spinner_animation_chars() {
    let cmd = execute("echo hi");
    let mut w = cmd.watcher(false);
    for _ in 0..8 {
        assert!(matches!(w.step(0, Probe::Running), Watch::Wait));
    }
    assert!(matches!(w.step(0, Probe::Exited), Watch::Collect));
}

#[test]
fn succinct_failed_command_no_wrapper() {
    let c = execute("false").run_succinct_report(exited(1, "", ""), 0, "2026-04-04 10:16:02");
    assert_eq!(c.report.exit_code, 1);
    assert!(c.status_line.is_none());
    assert_eq!(c.body, "");
}

#[test]
fn succinct_preserves_exit_code() {
    assert_eq!(execute("exit 42").run_succinct_report(exited(42, "", ""), 0, "2026-04-04 10:16:02").report.exit_code, 42);
}

#[test]
fn verbose_shows_output_on_success() {
    assert!(!quiet_applies(false, false));
    let c = execute("echo hi").run_report(exited(0, "hi\n", ""), 0, "2026-04-04 10:16:02");
    assert!(c.body.contains("hi"));
}

#[test]
fn verbose_shows_output_on_failure() {
    let c = execute("echo bye; false").run_report(exited(1, "bye\n", ""), 0, "2026-04-04 10:16:02");
    assert!(c.body.contains("bye"));
}

#[test]
fn default_omits_duration() {
    let c = execute("echo hi").run_report(exited(0, "hi\n", ""), 0, "2026-04-04 10:16:02");
    let line = c.status_line.unwrap();
    assert!(line.contains('✓'));
    assert!(!line.contains("00:00:"));
}

#[test]
fn default_omits_duration_on_failure() {
    let c = execute("false").run_report(exited(1, "", ""), 0, "2026-04-04 10:16:02");
    assert_eq!(c.report.exit_code, 1);
    let line = c.status_line.unwrap();
    assert!(line.contains('✘'));
    assert!(!line.contains("00:00:"));
}

#[test]
fn time_flag_includes_duration_on_failure() {
    let c = execute("false").show_time().run_report(exited(1, "", ""), 0, "2026-04-04 10:16:02");
    assert_eq!(c.report.exit_code, 1);
    let line = c.status_line.unwrap();
    assert!(line.contains('✘'));
    assert!(line.contains("00:00:"));
}

#[test]
fn validator_short_flag_main_pass_validator_pass() {
    let main = execute("echo hello").run_report(exited(0, "hello\n", ""), 0, "2026-04-04 10:16:02").report;
    assert_eq!(with_validator(main, exited(0, "", "")), 0);
}

#[test]
fn validator_long_flag_main_pass_validator_pass() {
    let main = execute("echo hi").run_report(exited(0, "hi\n", ""), 0, "2026-04-04 10:16:02").report;
    assert_eq!(with_validator(main, exited(0, "", "")), 0);
}

#[test]
fn validator_long_flag_overrides_failed_main() {
    let main = execute("false").run_report(exited(1, "", ""), 0, "2026-04-04 10:16:02").report;
    assert_eq!(with_validator(main, exited(0, "", "")), 0);
}

#[test]
fn one_failure_does_not_cancel_siblings() {
    let g = parallel(&["false", "sleep 0.3"]);
    let finished = vec![done(1, "", ""), done(0, "", "")];
    let c = g.run_report(&finished, 0, "2026-04-04 10:16:02");
    assert_eq!(c.report.status, RunStatus::Failure);
    // Both children are reported finished, the slow one successfully.
    assert!(c.block.contains("    [ \x1b[31m✘\x1b[0m ] false\n"));
    assert!(c.block.contains("    [ \x1b[32m✓\x1b[0m ] sleep 0.3\n"));
}

#[test]
fn siblings_run_to_completion_on_failure() {
    let g = parallel(&["false", "sleep 0.3"]);
    let r = g.run_report(&[done(1, "", ""), done(0, "", "")], 0, "2026-04-04 10:16:02").report;
    assert_eq!(group_code(r, None), 1);
}

#[test]
fn all_succeed_exits_zero() {
    let r = parallel(&["true", "true"]).run_report(&[done(0, "", ""), done(0, "", "")], 0, "2026-04-04 10:16:02").report;
    assert_eq!(group_code(r, None), 0);
}

#[test]
fn mixed_results_exit_one() {
    let r = parallel(&["true", "exit 42"]).run_report(&[done(0, "", ""), done(42, "", "")], 0, "2026-04-04 10:16:02").report;
    assert_eq!(group_code(r, None), 1);
}

#[test]
fn validator_passing_rescues_failed_group() {
    let r = parallel(&["false"]).run_report(&[done(1, "", "")], 0, "2026-04-04 10:16:02").report;
    assert_eq!(group_code(r, Some(exited(0, "", ""))), 0);
}

#[test]
fn validator_failing_does_not_poison_passing_group() {
    let r = parallel(&["true"]).run_report(&[done(0, "", "")], 0, "2026-04-04 10:16:02").report;
    assert_eq!(group_code(r, Some(exited(1, "", ""))), 0);
}

#[test]
fn both_group_and_validator_fail_exits_one() {
    let r = parallel(&["false"]).run_report(&[done(1, "", "")], 0, "2026-04-04 10:16:02").report;
    assert_eq!(group_code(r, Some(exited(1, "", ""))), 1);
}

#[test]
fn succinct_parallel_returns_status_only() {
    let g = parallel(&["true", "true"]);
    let c = g.run_succinct_report(&[done(0, "", ""), done(0, "", "")], 0, "2026-04-04 10:16:02");
    assert_eq!(c.report.exit_code, 0);
    assert_eq!(c.block, "");
}

#[test]
fn parallel_msg_renders_parent_label() {
    let g = parallel(&["true", "true"]).message("build pipeline");
    let c = g.run_report(&[done(0, "", ""), done(0, "", "")], 0, "2026-04-04 10:16:02");
    assert_eq!(c.report.exit_code, 0);
    assert!(c.block.starts_with("[ \x1b[32m✓\x1b[0m ] build pipeline\n"));
}

#[test]
fn parallel_default_parent_label_uses_count() {
    let g = parallel(&["true", "true"]);
    let c = g.run_report(&[done(0, "", ""), done(0, "", "")], 0, "2026-04-04 10:16:02");
    assert_eq!(c.report.exit_code, 0);
    assert!(c.block.contains("2 parallel commands"));
}

#[test]
fn parallel_quiet_omits_successful_child_bodies() {
    let g = parallel(&["echo SUCCESS_BODY", "echo FAIL_BODY >&2; false"]).quiet();
    let finished = vec![done(0, "SUCCESS_BODY\n", ""), done(1, "", "FAIL_BODY\n")];
    let c = g.run_report(&finished, 0, "2026-04-04 10:16:02");
    assert_eq!(c.report.exit_code, 1);
    assert!(c.block.contains("        FAIL_BODY"));
    assert!(!c.block.contains("        SUCCESS_BODY"));
}

#[test]
fn parallel_time_includes_duration_in_parent() {
    let g = parallel(&["true", "true"]).show_time();
    let c = g.run_report(&[done(0, "", ""), done(0, "", "")], 0, "2026-04-04 10:16:02");
    assert_eq!(c.report.exit_code, 0);
    assert!(c.block.contains('✓'));
    assert!(c.block.contains("00:00:0"));
}

#[test]
fn parallel_default_omits_duration_in_parent() {
    let g = parallel(&["true", "true"]);
    let c = g.run_report(&[done(0, "", ""), done(0, "", "")], 0, "2026-04-04 10:16:02");
    assert!(c.block.contains('✓'));
    assert!(!c.block.contains("00:00:"));
}

#[test]
fn timeout_is_checked_before_the_probe() {
    let cmd = execute("sleep 30").timeout(1, 0);
    let mut w = cmd.watcher(false);
    assert!(matches!(w.step(999_999_999, Probe::Running), Watch::Wait));
    assert!(matches!(w.step(1_000_000_000, Probe::Exited), Watch::Kill));
}
