use turbulent_ci::ci_runner::CiRunner;
use turbulent_ci::config::{ProjectType, Repository};
use turbulent_ci::executor::{CommandExecutor, CommandOutcome};
use turbulent_ci::models::GlobalState;

fn repo(commands: &[&str]) -> Repository {
    Repository {
        id: 42,
        name: "demo".to_string(),
        path: "/work/demo".to_string(),
        project_type: ProjectType::Generic,
        commands: commands.iter().map(|s| s.to_string()).collect(),
        enabled: true,
    }
}

/// Stands in for a shell: `true` succeeds, anything else fails.
fn run_all(ex: &mut CommandExecutor) {
    while let Some(cmd) = ex.next_command() {
        let success = cmd == "true";
        ex.record(CommandOutcome::Completed { stdout: String::new(), stderr: String::new(), success });
    }
}

fn status(g: &GlobalState) -> String {
    g.repositories[0].current_status.text()
}

#[test]
fn builds_only_on_new_commits() {
    let mut g = GlobalState::new();
    let mut runner = CiRunner::new(repo(&["true"]), &mut g);
    runner.start(&mut g);
    let polls: Vec<Result<&str, &str>> =
        vec![Ok("a"), Ok("a"), Err("offline"), Ok("a"), Ok("b"), Ok("b"), Ok("a")];
    let mut triggered = Vec::new();
    for p in polls {
        let fetched = p.map(|s| s.to_string()).map_err(|s| s.to_string());
        match runner.poll(&mut g, fetched) {
            Some(mut ex) => {
                triggered.push(true);
                run_all(&mut ex);
                runner.complete(&mut g, &ex, 0, 1, None);
            }
            None => triggered.push(false),
        }
    }
    assert_eq!(triggered, vec![true, false, false, false, true, false, true]);
    assert_eq!(runner.build_counter(), 3);
    assert_eq!(g.recent_builds.len(), 3);
    assert_eq!(g.recent_builds[0].id, 3);
    assert_eq!(g.recent_builds[0].commit_hash, "a");
}

#[test]
fn fetch_error_shows_error_status() {
    let mut g = GlobalState::new();
    let mut runner = CiRunner::new(repo(&["true"]), &mut g);
    runner.start(&mut g);
    assert!(runner.poll(&mut g, Err("Failed to get git commit".to_string())).is_none());
    assert_eq!(status(&g), "Error: Failed to get git commit");
    assert!(g.recent_builds.is_empty());
}

#[test]
fn passing_build_end_to_end() {
    let mut g = GlobalState::new();
    let mut runner = CiRunner::new(repo(&["true"]), &mut g);
    let mut seen = vec![status(&g)];
    runner.start(&mut g);
    seen.push(status(&g));
    let mut ex = runner.poll(&mut g, Ok("abc123def456".to_string())).unwrap();
    seen.push(status(&g));
    run_all(&mut ex);
    let r = runner.complete(&mut g, &ex, 1700000000, 12, Some("main".to_string()));
    seen.push(status(&g));
    assert_eq!(seen, vec!["Starting...", "Idle", "Building...", "Passing"]);
    assert_eq!(g.recent_builds.len(), 1);
    let b = &g.recent_builds[0];
    assert!(b.success);
    assert!(b.duration_ms > 0);
    assert_eq!(b.id, 1);
    assert_eq!(b.commit_hash, "abc123def456");
    assert_eq!(b.output, "=== true ===\n\n");
    assert_eq!(b.project_type, "Generic");
    assert_eq!(b.repository_name, "demo");
    assert_eq!(b.repo_path, "/work/demo");
    assert_eq!(b.timestamp, 1700000000);
    assert_eq!(r.id, 1);
    assert_eq!(g.repositories[0].builds.len(), 1);
    assert_eq!(g.repositories[0].repo_info.branch, "main");
    assert_eq!(g.repositories[0].repo_info.last_commit, "abc123def456");
}

#[test]
fn failing_build_end_to_end() {
    let mut g = GlobalState::new();
    let mut runner = CiRunner::new(repo(&["false", "true"]), &mut g);
    runner.start(&mut g);
    let mut ex = runner.poll(&mut g, Ok("abc123def456".to_string())).unwrap();
    run_all(&mut ex);
    runner.complete(&mut g, &ex, 5, 7, None);
    assert_eq!(status(&g), "Failed");
    let b = &g.recent_builds[0];
    assert!(!b.success);
    assert_eq!(b.output, "=== false ===\n\n");
    assert!(!b.output.contains("=== true ==="));
    assert_eq!(g.repositories[0].repo_info.last_commit, "unknown");
}

#[test]
fn first_builds_of_two_repositories_share_id_one() {
    let mut g = GlobalState::new();
    let mut one = CiRunner::new(repo(&["true"]), &mut g);
    let mut other = repo(&["true"]);
    other.id = 43;
    other.name = "other".to_string();
    let mut two = CiRunner::new(other, &mut g);
    let mut ex = one.poll(&mut g, Ok("c1".to_string())).unwrap();
    run_all(&mut ex);
    one.complete(&mut g, &ex, 0, 1, None);
    let mut ex = two.poll(&mut g, Ok("c2".to_string())).unwrap();
    run_all(&mut ex);
    two.complete(&mut g, &ex, 0, 1, None);
    assert_eq!(g.recent_builds[0].id, 1);
    assert_eq!(g.recent_builds[1].id, 1);
    let i = g.find_build(1).unwrap();
    assert_eq!(i, 0);
    assert_eq!(g.recent_builds[i].repository_id, 43);
}
