use shell_executor::text::{
    derive_display_message, format_elapsed, format_mmss, push_body, push_truncation_note, read_bounded,
    truncate_label,
};
use shell_executor::clock::format_timestamp;
use shell_executor::render::{fail_line, pass_line};
use shell_executor::{execute, Ran, RunStatus};

fn exited(code: i32, stdout: &str, stderr: &str) -> Ran {
    Ran::Exited {
        code: Some(code),
        signal: None,
        stdout: stdout.to_string(),
        stderr: stderr.to_string(),
    }
}

fn body(prefix: &str, stdout: &str, stderr: &str) -> String {
    let mut s = String::new();
    push_body(&mut s, prefix, stdout, stderr);
    s
}

#[test]
fn elapsed_formats() {
    assert_eq!(format_elapsed(0), "00:00:00");
    assert_eq!(format_elapsed(9), "00:00:09");
    assert_eq!(format_elapsed(3725), "01:02:05");
    assert_eq!(format_elapsed(360000), "100:00:00");
    assert_eq!(format_mmss(65), "01:05");
    assert_eq!(format_mmss(6000), "100:00");
}

#[test]
fn default_message_uses_command_when_short() {
    assert_eq!(derive_display_message(&None, "echo hi"), "echo hi");
    let exactly_thirty = "echo 1234567890123456789012345";
    assert_eq!(exactly_thirty.len(), 30);
    assert_eq!(derive_display_message(&None, exactly_thirty), exactly_thirty);
}

#[test]
fn default_message_truncates_long_command() {
    let cmd = "echo this is a very long command that exceeds thirty characters";
    let expected_prefix = format!("{}...", &cmd[..30]);
    assert_eq!(derive_display_message(&None, cmd), expected_prefix);
}

#[test]
fn message_overrides_command() {
    assert_eq!(derive_display_message(&Some("Build #42: linking".to_string()), "true"), "Build #42: linking");
}

#[test]
fn multibyte_command_cut_after_thirty_characters() {
    // 28 ASCII characters, `é`, then a space: thirty characters in all.
    let cmd = "echo 12345678901234567890123é and more";
    assert_eq!(derive_display_message(&None, cmd), "echo 12345678901234567890123é ...");
    let short = format!("a{}", "é".repeat(20));
    assert_eq!(derive_display_message(&None, &short), short);
    let long = "é".repeat(31);
    assert_eq!(derive_display_message(&None, &long), format!("{}...", "é".repeat(30)));
}

#[test]
fn log_timestamps_are_zero_padded() {
    assert_eq!(format_timestamp(2026, 4, 4, 10, 16, 2), "2026-04-04 10:16:02");
    assert_eq!(format_timestamp(987, 12, 31, 23, 59, 59), "0987-12-31 23:59:59");
    assert_eq!(format_timestamp(12345, 1, 1, 0, 0, 0), "+12345-01-01 00:00:00");
    assert_eq!(format_timestamp(-1, 1, 1, 0, 0, 0), "-0001-01-01 00:00:00");
}

#[test]
fn truncate_label_cases() {
    assert_eq!(truncate_label("hello", 0), "");
    assert_eq!(truncate_label("hello", 5), "hello");
    assert_eq!(truncate_label("hello", 1), "h");
    assert_eq!(truncate_label("hello", 4), "hel…");
    assert_eq!(truncate_label("héllo wörld", 6), "héllo…");
}

#[test]
fn stdout_single_line_indented_with_four_spaces() {
    let c = execute("echo hi").run_report(exited(0, "hi\n", ""), 0, "2026-04-04 10:16:02");
    assert_eq!(c.body, "    hi\n");
    assert!(!c.body.contains("\thi"));
}

#[test]
fn stdout_multi_line_each_indented_separately() {
    let c = execute("printf 'line1\\nline2\\nline3'").run_report(exited(0, "line1\nline2\nline3", ""), 0, "2026-04-04 10:16:02");
    assert!(c.body.contains("    line1\n    line2\n    line3"));
}

#[test]
fn stderr_only_command_indented_same_as_stdout() {
    let c = execute("echo errline >&2").run_report(exited(0, "", "errline\n"), 0, "2026-04-04 10:16:02");
    assert!(c.body.contains("    errline"));
}

#[test]
fn empty_output_command_shows_wrapper_only() {
    let c = execute("true").run_report(exited(0, "", ""), 0, "2026-04-04 10:16:02");
    assert_eq!(c.body, "");
    assert_eq!(c.status_line.as_deref(), Some("\r[ \x1b[32m✓\x1b[0m ] true"));
}

#[test]
fn output_trimmed_no_trailing_blank_indented_line() {
    let c = execute("printf 'hello\\n\\n\\n'").run_report(exited(0, "hello\n\n\n", ""), 0, "2026-04-04 10:16:02");
    assert_eq!(c.body, "    hello\n");
}

#[test]
fn body_handles_crlf_and_inner_blank_lines() {
    assert_eq!(body("  ", "a\r\n\r\nb\r\n", ""), "  a\n  \n  b\n");
    assert_eq!(body(">", "  \t x \u{3000}", ""), ">x\n");
    assert_eq!(body(">", "out", "err"), ">outerr\n");
    assert_eq!(body(">", " \n \t", ""), "");
}

#[test]
fn failure_command_output_still_shown_indented() {
    let c = execute("echo dying; false").quiet().run_report(exited(1, "dying\n", ""), 0, "2026-04-04 10:16:02");
    assert_eq!(c.report.exit_code, 1);
    assert_eq!(c.body, "    dying\n");
}

#[test]
fn quiet_success_omits_output() {
    let c = execute("printf '%s%s\\n' hid denbody").quiet().run_report(exited(0, "hiddenbody\n", ""), 0, "2026-04-04 10:16:02");
    assert_eq!(c.report.exit_code, 0);
    assert_eq!(c.body, "");
}

#[test]
fn time_flag_includes_duration() {
    let c = execute("echo hi").show_time().run_report(exited(0, "hi\n", ""), 3, "2026-04-04 10:16:02");
    assert_eq!(c.status_line.as_deref(), Some("\r[ \x1b[32m✓\x1b[0m 00:00:03 ] echo hi"));
    let d = execute("echo hi").run_report(exited(0, "hi\n", ""), 3, "2026-04-04 10:16:02");
    assert!(!d.status_line.unwrap().contains("00:00:"));
}

#[test]
fn msg_with_failure() {
    let c = execute("false").message("Boom").run_report(exited(1, "", ""), 0, "2026-04-04 10:16:02");
    assert_eq!(c.report.exit_code, 1);
    let line = c.status_line.unwrap();
    assert!(line.contains("Boom"));
    assert!(line.contains('✘'));
}

#[test]
fn interrupted_line_says_interrupted() {
    let ran = Ran::Exited { code: None, signal: Some(2), stdout: String::new(), stderr: String::new() };
    let c = execute("kill -INT $$").message("Signal test").run_report(ran, 0, "2026-04-04 10:16:02");
    assert_eq!(c.status_line.as_deref(), Some("\r[ \x1b[33mINTERRUPTED\x1b[0m ] Signal test"));
}

#[test]
fn log_success_shows_checkmark() {
    let cmd = execute("echo ok").message("Success cmd").log("/tmp/x.log");
    let c = cmd.run_report(exited(0, "ok\n", ""), 0, "2026-04-04 10:16:02");
    let entry = c.log_entry.expect("log entry");
    assert!(entry.contains('✓'));
    assert!(entry.contains("Success cmd"));
    assert!(entry.starts_with('['));
    assert!(entry.contains(" [ ✓ 00:00:00 ] Success cmd\n\tok\n"));
}

#[test]
fn log_failure_shows_cross() {
    let entry = execute("false").message("Fail cmd").log("/tmp/x.log").run_report(exited(1, "", ""), 0, "2026-04-04 10:16:02").log_entry.unwrap();
    assert!(entry.contains('✘'));
    assert!(entry.contains("Fail cmd"));
}

#[test]
fn log_no_ansi_color_codes() {
    let a = execute("echo colored").log("/tmp/x.log").run_report(exited(0, "colored\n", ""), 0, "2026-04-04 10:16:02").log_entry.unwrap();
    let b = execute("false").log("/tmp/x.log").run_report(exited(1, "", ""), 0, "2026-04-04 10:16:02").log_entry.unwrap();
    assert!(!a.contains('\x1b'));
    assert!(!b.contains('\x1b'));
}

#[test]
fn log_success_output_tabulated() {
    let cmd = execute("printf 'line1\\nline2\\nline3'").message("Multi-line");
    let entry = cmd.log_entry("2026-04-04 10:16:02", RunStatus::Success, 9, "line1\nline2\nline3", "");
    assert_eq!(entry, "[2026-04-04 10:16:02] [ ✓ 00:00:09 ] Multi-line\n\tline1\n\tline2\n\tline3\n");
}

#[test]
fn log_quiet_success_omits_output() {
    let cmd = execute("echo suppressed").message("Quiet ok").quiet();
    let entry = cmd.log_entry("2026-04-04 10:16:02", RunStatus::Success, 0, "suppressed\n", "");
    assert!(entry.contains("Quiet ok"));
    assert!(!entry.contains("suppressed"));
    assert!(!entry.contains('\t'));
}

#[test]
fn log_quiet_failure_includes_output() {
    let cmd = execute("echo visible >&2; false").message("Quiet fail").quiet();
    let entry = cmd.log_entry("2026-04-04 10:16:02", RunStatus::Failure, 0, "", "visible\n");
    assert!(entry.contains('✘'));
    assert!(entry.contains("\tvisible"));
}

#[test]
fn log_interrupted_shows_interrupted() {
    let ran = Ran::Exited { code: None, signal: Some(2), stdout: String::new(), stderr: String::new() };
    let entry = execute("kill -INT $$").message("Signal test").log("/tmp/x.log").run_report(ran, 0, "2026-04-04 10:16:02").log_entry.unwrap();
    assert!(entry.contains("INTERRUPTED"));
    assert!(!entry.contains('✓'));
    assert!(!entry.contains('✘'));
    assert!(!entry.contains('\x1b'));
}

#[test]
fn log_contains_timestamp_format() {
    let entry = execute("echo ts").log("/tmp/x.log").run_report(exited(0, "ts\n", ""), 0, "2026-04-04 10:16:02").log_entry.unwrap();
    assert!(entry.starts_with('['));
    assert!(entry.contains('-'));
    assert!(entry.contains(':'));
    assert_eq!(&entry[20..22], "] ");
}

#[test]
fn run_succinct_report_log_writes_entry_without_body() {
    let cmd = execute("echo body-line").message("Succinct entry").log("/tmp/x.log");
    let c = cmd.run_succinct_report(exited(0, "", ""), 0, "2026-04-04 10:16:02");
    assert!(c.status_line.is_none());
    let entry = c.log_entry.unwrap();
    assert!(entry.contains("Succinct entry"));
    assert!(entry.contains('✓'));
    assert!(!entry.contains("body-line"));
    assert!(!entry.contains('\t'));
}

#[test]
fn spawn_failure_prints_nothing_and_logs_nothing() {
    let c = execute("x").log("/tmp/x.log").run_report(Ran::SpawnFailed { reason: "no".to_string() }, 0, "2026-04-04 10:16:02");
    assert!(c.status_line.is_none());
    assert!(c.log_entry.is_none());
    assert_eq!(c.report.exit_code, 1);
}

#[test]
fn interactive_line_without_carriage_return() {
    let cmd = execute("true").message("TUI");
    let c = cmd.run_interactive_report(Some(0), 0, "2026-04-04 10:16:02");
    assert_eq!(c.status_line.as_deref(), Some("[ \x1b[32m✓\x1b[0m ] TUI"));
    let f = execute("true").message("TUI").run_interactive_report(Some(3), 0, "2026-04-04 10:16:02");
    assert_eq!(f.status_line.as_deref(), Some("[ \x1b[31m✘\x1b[0m ] TUI"));
    assert_eq!(f.report.exit_code, 3);
}

#[test]
fn bounded_capture_keeps_short_output() {
    assert_eq!(read_bounded("héllo".as_bytes(), 10), "héllo");
    assert_eq!(read_bounded(b"abcdef", 5), "abcde\n... [output truncated at 5 bytes]");
    assert_eq!(read_bounded(&[0x66, 0xff, 0x67], 10), "f\u{fffd}g");
}

#[test]
fn pass_and_fail_labels() {
    assert_eq!(pass_line("working tree clean"), "[ \x1b[32m✓\x1b[0m ] working tree clean");
    assert_eq!(fail_line("could not open repository"), "[ \x1b[31m✘\x1b[0m ] could not open repository");
}

#[test]
fn truncation_note_names_the_limit() {
    let mut s = String::from("abc");
    push_truncation_note(&mut s, 1024);
    assert_eq!(s, "abc\n... [output truncated at 1024 bytes]");
}
