use turbulent_ci::executor::{CommandExecutor, CommandOutcome};

fn ok(out: &str) -> CommandOutcome {
    CommandOutcome::Completed { stdout: out.to_string(), stderr: String::new(), success: true }
}

fn fail(out: &str, err: &str) -> CommandOutcome {
    CommandOutcome::Completed { stdout: out.to_string(), stderr: err.to_string(), success: false }
}

fn steps(v: &[&str]) -> Vec<String> {
    v.iter().map(|s| s.to_string()).collect()
}

#[test]
fn fail_fast_stops_after_failing_step() {
    let cmds = steps(&["step one", "step two", "step three"]);
    let mut ex = CommandExecutor::new(&cmds);
    let mut given = vec![ok("a\n"), fail("b\n", "boom\n"), ok("c\n")].into_iter();
    let mut ran = Vec::new();
    while let Some(cmd) = ex.next_command() {
        ran.push(cmd);
        ex.record(given.next().unwrap());
    }
    assert_eq!(ran, steps(&["step one", "step two"]));
    assert!(ex.is_finished());
    assert!(!ex.success());
    let t = ex.transcript();
    assert_eq!(t, "=== step one ===\na\n\n=== step two ===\nb\nSTDERR:\nboom\n\n");
    assert!(t.contains("=== step one ==="));
    assert!(t.contains("=== step two ==="));
    assert!(!t.contains("step three"));
}

#[test]
fn no_steps_succeeds_with_empty_transcript() {
    let ex = CommandExecutor::new(&Vec::new());
    assert!(ex.is_finished());
    assert_eq!(ex.next_command(), None);
    assert!(ex.success());
    assert_eq!(ex.transcript(), "");
}

#[test]
fn all_steps_pass() {
    let cmds = steps(&["x", "y"]);
    let mut ex = CommandExecutor::new(&cmds);
    assert_eq!(ex.next_command(), Some("x".to_string()));
    ex.record(ok("1"));
    assert_eq!(ex.next_command(), Some("y".to_string()));
    ex.record(ok(""));
    assert_eq!(ex.next_command(), None);
    assert!(ex.success());
    assert_eq!(ex.transcript(), "=== x ===\n1\n=== y ===\n\n");
}

#[test]
fn spawn_failure_is_a_failed_step() {
    let cmds = steps(&["missing-binary", "after"]);
    let mut ex = CommandExecutor::new(&cmds);
    ex.next_command().unwrap();
    ex.record(CommandOutcome::SpawnFailed { error: "not found".to_string() });
    assert!(ex.is_finished());
    assert_eq!(ex.next_command(), None);
    assert!(!ex.success());
    assert_eq!(ex.transcript(), "Failed to execute missing-binary: not found\n");
}
