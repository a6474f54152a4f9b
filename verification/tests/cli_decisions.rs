use shell_executor::cli::{final_exit_code, group_final_exit_code, quiet_applies, validator_applies};
use shell_executor::{execute, Ran, RunReport, RunStatus};

fn exited(code: i32) -> Ran {
    Ran::Exited { code: Some(code), signal: None, stdout: String::new(), stderr: String::new() }
}

fn main_report(cmd: &str, ran: Ran) -> RunReport {
    execute(cmd).run_report(ran, 0, "2026-04-04 10:16:02").report
}

fn validator_report(cmd: &str, ran: Ran) -> RunReport {
    execute(cmd).message("Validator").run_report(ran, 0, "2026-04-04 10:16:02").report
}

fn invocation(main: RunReport, validator: Option<(&str, Ran)>) -> i32 {
    let v = match validator {
        Some((cmd, ran)) if validator_applies(main.status) => Some(validator_report(cmd, ran)),
        _ => None,
    };
    final_exit_code(main, v)
}

#[test]
fn exit_code_true_is_zero() {
    assert_eq!(invocation(main_report("true", exited(0)), None), 0);
}

#[test]
fn exit_code_false_is_one() {
    assert_eq!(invocation(main_report("false", exited(1)), None), 1);
}

#[test]
fn exit_code_explicit_zero() {
    assert_eq!(invocation(main_report("exit 0", exited(0)), None), 0);
}

#[test]
fn exit_code_42_propagates() {
    assert_eq!(invocation(main_report("exit 42", exited(42)), None), 42);
}

#[test]
fn exit_code_7_propagates() {
    assert_eq!(invocation(main_report("exit 7", exited(7)), None), 7);
}

#[test]
fn validator_success_overrides_main_nonzero() {
    assert_eq!(invocation(main_report("exit 42", exited(42)), Some(("true", exited(0)))), 0);
}

#[test]
fn validator_nonzero_overrides_main_success() {
    assert_eq!(invocation(main_report("exit 0", exited(0)), Some(("exit 7", exited(7)))), 7);
}

#[test]
fn validator_nonzero_overrides_main_nonzero() {
    assert_eq!(invocation(main_report("exit 42", exited(42)), Some(("exit 5", exited(5)))), 5);
}

#[test]
fn validator_false_yields_one() {
    assert_eq!(invocation(main_report("true", exited(0)), Some(("false", exited(1)))), 1);
}

#[test]
fn timeout_exits_124() {
    let main = execute("sleep 30").timeout(1, 0).run_report(Ran::TimedOut, 0, "2026-04-04 10:16:02").report;
    assert_eq!(invocation(main, None), 124);
}

#[test]
fn validator_does_not_run_on_main_timeout() {
    let main = execute("sleep 30").timeout(1, 0).run_report(Ran::TimedOut, 0, "2026-04-04 10:16:02").report;
    assert!(!validator_applies(main.status));
    assert_eq!(invocation(main, Some(("true", exited(0)))), 124);
}

#[test]
fn signal_int_exits_exactly_130() {
    let ran = Ran::Exited { code: None, signal: Some(2), stdout: String::new(), stderr: String::new() };
    assert_eq!(invocation(main_report("kill -INT $$", ran), None), 130);
}

#[test]
fn signal_killed_main_exits_nonzero() {
    let ran = Ran::Exited { code: None, signal: Some(2), stdout: String::new(), stderr: String::new() };
    let code = invocation(main_report("kill -INT $$", ran), Some(("true", exited(0))));
    assert_ne!(code, 0);
}

#[test]
fn validator_overrides_failed_main_command() {
    assert_eq!(invocation(main_report("false", exited(1)), Some(("true", exited(0)))), 0);
}

#[test]
fn quiet_is_overridden_by_succinct() {
    assert!(quiet_applies(true, false));
    assert!(!quiet_applies(true, true));
    assert!(!quiet_applies(false, false));
    assert_eq!(validator_applies(RunStatus::Interrupted), false);
    assert_eq!(validator_applies(RunStatus::Failure), true);
}

fn group(status: RunStatus, exit_code: i32) -> RunReport {
    RunReport { status, exit_code }
}

#[test]
fn passing_validator_rescues_failed_group() {
    let v = group(RunStatus::Success, 0);
    assert_eq!(group_final_exit_code(group(RunStatus::Failure, 1), Some(v)), 0);
}

#[test]
fn failing_validator_does_not_poison_passing_group() {
    let v = group(RunStatus::Failure, 3);
    assert_eq!(group_final_exit_code(group(RunStatus::Success, 0), Some(v)), 0);
}

#[test]
fn failing_group_and_validator_exit_one() {
    let v = group(RunStatus::Failure, 7);
    assert_eq!(group_final_exit_code(group(RunStatus::Failure, 1), Some(v)), 1);
}

#[test]
fn group_without_validator_keeps_its_code() {
    assert_eq!(group_final_exit_code(group(RunStatus::Failure, 1), None), 1);
    assert_eq!(group_final_exit_code(group(RunStatus::Success, 0), None), 0);
}

#[test]
fn interrupted_group_ignores_validator() {
    let v = group(RunStatus::Success, 0);
    assert_eq!(group_final_exit_code(group(RunStatus::Interrupted, 1), Some(v)), 1);
}
