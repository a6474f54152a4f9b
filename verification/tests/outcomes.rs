use shell_executor::status::{
    aggregate, colored_icon, exit_code, plain_icon, should_include_body, Outcome, OutputCapture,
};
use shell_executor::{CommandOutput, RunStatus};

fn make_outcome(status: RunStatus, output: OutputCapture, signal_num: Option<i32>) -> Outcome {
    Outcome { status, output, elapsed_secs: 0, label: String::new(), signal_num }
}

fn captured(exit_code: i32) -> OutputCapture {
    OutputCapture::Captured(CommandOutput { stdout: String::new(), stderr: String::new(), exit_code })
}

#[test]
fn aggregate_empty_is_success() {
    assert_eq!(aggregate(&[]), RunStatus::Success);
}

#[test]
fn aggregate_all_success() {
    let outcomes = [
        make_outcome(RunStatus::Success, captured(0), None),
        make_outcome(RunStatus::Success, captured(0), None),
    ];
    assert_eq!(aggregate(&outcomes), RunStatus::Success);
}

#[test]
fn aggregate_mix_success_failure_is_failure() {
    let outcomes = [
        make_outcome(RunStatus::Success, captured(0), None),
        make_outcome(RunStatus::Failure, captured(1), None),
    ];
    assert_eq!(aggregate(&outcomes), RunStatus::Failure);
}

#[test]
fn aggregate_interrupted_in_successes_is_interrupted() {
    let outcomes = [
        make_outcome(RunStatus::Success, captured(0), None),
        make_outcome(RunStatus::Interrupted, captured(130), Some(2)),
        make_outcome(RunStatus::Success, captured(0), None),
    ];
    assert_eq!(aggregate(&outcomes), RunStatus::Interrupted);
}

#[test]
fn aggregate_interrupt_precedes_failure() {
    let outcomes = [
        make_outcome(RunStatus::Failure, captured(1), None),
        make_outcome(RunStatus::Interrupted, captured(130), Some(2)),
    ];
    assert_eq!(aggregate(&outcomes), RunStatus::Interrupted);
}

#[test]
fn aggregate_timeout_folds_to_failure() {
    let outcomes = [
        make_outcome(RunStatus::Timeout, captured(124), None),
        make_outcome(RunStatus::Success, captured(0), None),
    ];
    assert_eq!(aggregate(&outcomes), RunStatus::Failure);
}

#[test]
fn exit_code_success_captured_is_zero() {
    let o = make_outcome(RunStatus::Success, captured(0), None);
    assert_eq!(exit_code(&o), 0);
}

#[test]
fn exit_code_failure_captured_returns_command_exit_code() {
    let o = make_outcome(RunStatus::Failure, captured(42), None);
    assert_eq!(exit_code(&o), 42);
}

#[test]
fn exit_code_timeout_is_124() {
    let o = make_outcome(RunStatus::Timeout, captured(0), None);
    assert_eq!(exit_code(&o), 124);
}

#[test]
fn exit_code_interrupted_with_sigterm_is_143() {
    let o = make_outcome(RunStatus::Interrupted, OutputCapture::Inherited, Some(15));
    assert_eq!(exit_code(&o), 143);
}

#[test]
fn exit_code_interrupted_unknown_signal_is_1() {
    let o = make_outcome(RunStatus::Interrupted, OutputCapture::Inherited, None);
    assert_eq!(exit_code(&o), 1);
}

#[test]
fn exit_code_success_inherited_is_zero() {
    let o = make_outcome(RunStatus::Success, OutputCapture::Inherited, None);
    assert_eq!(exit_code(&o), 0);
}

#[test]
fn exit_code_failure_inherited_is_one() {
    let o = make_outcome(RunStatus::Failure, OutputCapture::Inherited, None);
    assert_eq!(exit_code(&o), 1);
}

#[test]
fn should_include_body_success_quiet_suppressed() {
    assert!(!should_include_body(RunStatus::Success, true));
}

#[test]
fn should_include_body_success_not_quiet_included() {
    assert!(should_include_body(RunStatus::Success, false));
}

#[test]
fn should_include_body_failure_quiet_included() {
    assert!(should_include_body(RunStatus::Failure, true));
}

#[test]
fn should_include_body_interrupted_quiet_included() {
    assert!(should_include_body(RunStatus::Interrupted, true));
}

#[test]
fn should_include_body_timeout_quiet_included() {
    assert!(should_include_body(RunStatus::Timeout, true));
}

#[test]
fn is_success_only_for_success() {
    assert!(RunStatus::Success.is_success());
    assert!(!RunStatus::Failure.is_success());
    assert!(!RunStatus::Timeout.is_success());
    assert!(!RunStatus::Interrupted.is_success());
}

#[test]
fn icons_for_console_and_log() {
    assert_eq!(colored_icon(RunStatus::Success), "\x1b[32m✓\x1b[0m");
    assert_eq!(colored_icon(RunStatus::Timeout), "\x1b[31m✘\x1b[0m");
    assert_eq!(colored_icon(RunStatus::Interrupted), "\x1b[33mINTERRUPTED\x1b[0m");
    assert_eq!(plain_icon(RunStatus::Success), "✓");
    assert_eq!(plain_icon(RunStatus::Failure), "✘");
    assert_eq!(plain_icon(RunStatus::Interrupted), "INTERRUPTED");
}

#[test]
fn exit_code_ignores_signal_unless_interrupted() {
    let o = make_outcome(RunStatus::Failure, captured(3), Some(i32::MAX));
    assert_eq!(exit_code(&o), 3);
}
