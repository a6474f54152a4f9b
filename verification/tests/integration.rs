use shell_executor::{execute, Ran};

fn exited(code: i32, stdout: &str) -> Ran {
    Ran::Exited { code: Some(code), signal: None, stdout: stdout.to_string(), stderr: String::new() }
}

#[test]
fn full_pipeline() {
    let result = execute("echo integration")
        .message("Full pipeline test")
        .timeout(5, 0)
        .success(|output| output.stdout.contains("integration"))
        .run(exited(0, "integration\n"));
    assert!(result);
}

#[test]
fn multiple_sequential_commands() {
    assert!(execute("echo first").run(exited(0, "first\n")));
    assert!(execute("echo second").run(exited(0, "second\n")));
    assert!(execute("echo third").run(exited(0, "third\n")));
}

#[test]
fn success_and_failure_together() {
    let ok = execute("echo works").run(exited(0, "works\n"));
    assert!(ok);

    let fail = execute("false").run(exited(1, ""));
    assert!(!fail);

    let ok_again = execute("echo still works").run(exited(0, "still works\n"));
    assert!(ok_again);
}

#[test]
fn timeout_in_integration() {
    let result = execute("sleep 30")
        .message("Should time out")
        .timeout(0, 200_000_000)
        .run(Ran::TimedOut);
    assert!(!result);
}
