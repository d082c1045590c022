use gopher::github::check_status::{
    check_run, check_runs, commit_statuses, needs_workflow_identity, WorkflowFetch, WorkflowRun,
};
use gopher::json::Json;
use gopher::model::CheckState;
use std::collections::BTreeMap;

fn json(text: &str) -> Json {
    gopher::json::parse(text.as_bytes()).unwrap()
}

/// A check of an app in a suite.
fn check(id: u64, name: &str, conclusion: &str, suite: u64, slug: &str) -> Json {
    json(&format!(
        r#"{{"id":{id},"app":{{"id":1,"slug":"{slug}"}},"name":"{name}","status":"completed","conclusion":"{conclusion}","check_suite":{{"id":{suite}}}}}"#
    ))
}

fn run(run: u64) -> WorkflowRun {
    WorkflowRun { workflow: 1, run, event: "pull_request".into(), branch: "feature".into() }
}

#[test]
fn independent_executions_stay_blocking_but_automatic_runs_and_reruns_replace() {
    let checks = vec![
        check(100, "test", "failure", 10, "github-actions"),
        check(200, "test", "success", 20, "github-actions"),
    ];
    for event in [
        "push",
        "pull_request",
        "pull_request_target",
        "workflow_dispatch",
        "repository_dispatch",
        "schedule",
        "workflow_run",
        "unknown",
    ] {
        let old = WorkflowRun { workflow: 1, run: 10, event: event.into(), branch: "feature".into() };
        let new = WorkflowRun { run: 20, ..old.clone() };
        let mut workflows = BTreeMap::from([(10, old), (20, new)]);
        let expected = if matches!(event, "push" | "pull_request" | "pull_request_target") {
            CheckState::Green
        } else {
            CheckState::Failed
        };
        assert_eq!(check_runs(&checks, &workflows), expected, "{event}");
        workflows.get_mut(&20).unwrap().run = 10;
        assert_eq!(check_runs(&checks, &workflows), CheckState::Green, "rerun: {event}");
    }
}

#[test]
fn only_verified_workflow_replacements_can_hide_a_failed_suite() {
    let checks = vec![
        check(300, "test", "failure", 10, "github-actions"),
        check(200, "test", "success", 20, "github-actions"),
    ];
    let old = run(10);
    let new = run(20);
    assert!(needs_workflow_identity(&checks));
    assert_eq!(check_runs(&checks, &BTreeMap::new()), CheckState::Failed);
    let mut workflows = BTreeMap::from([(10, old), (20, new)]);
    // The old workflow's failed job was created after the newer run's job.
    assert_eq!(check_runs(&checks, &workflows), CheckState::Green);
    workflows.get_mut(&20).unwrap().workflow = 2;
    assert_eq!(check_runs(&checks, &workflows), CheckState::Failed);
    workflows.get_mut(&20).unwrap().workflow = 1;
    workflows.get_mut(&20).unwrap().event = "push".into();
    assert_eq!(check_runs(&checks, &workflows), CheckState::Failed);
    workflows.get_mut(&20).unwrap().event = "pull_request".into();
    workflows.get_mut(&20).unwrap().branch = "other".into();
    assert_eq!(check_runs(&checks, &workflows), CheckState::Failed);
    workflows.remove(&10);
    assert_eq!(check_runs(&checks, &workflows), CheckState::Failed);
    let other = vec![
        check(300, "test", "failure", 10, "other-ci"),
        check(200, "test", "success", 20, "other-ci"),
    ];
    assert!(!needs_workflow_identity(&other));
    assert_eq!(check_runs(&other, &workflows), CheckState::Failed);
}

#[test]
fn superseded_runs_do_not_override_current_results() {
    let admin = |status: &str, conclusion: &str| {
        json(&format!(
            r#"{{"id":5,"app":{{"id":1,"slug":"github-actions"}},"name":"Admin test","status":"{status}","conclusion":{conclusion}}}"#
        ))
    };
    let mut checks = vec![
        check(1, "Redesign required", "failure", 10, "github-actions"),
        check(2, "Repository format", "cancelled", 10, "github-actions"),
        check(3, "Redesign required", "success", 20, "github-actions"),
        check(4, "Repository format", "success", 20, "github-actions"),
        admin("in_progress", "null"),
    ];
    let workflows = BTreeMap::from([(10, run(10)), (20, run(20))]);
    assert_eq!(check_runs(&checks, &workflows), CheckState::Running);
    checks.reverse();
    assert_eq!(check_runs(&checks, &workflows), CheckState::Running);
    checks[0] = admin("completed", "\"success\"");
    assert_eq!(check_runs(&checks, &workflows), CheckState::Green);
    checks.push(json(
        r#"{"id":6,"app":{"id":1,"slug":"github-actions"},"name":"Redesign required","status":"completed","conclusion":"failure"}"#,
    ));
    assert_eq!(check_runs(&checks, &workflows), CheckState::Failed);
}

#[test]
fn independent_or_unidentified_failures_remain_blocking() {
    let successful = || {
        json(
            r#"{"id":3,"app":{"id":1,"slug":"github-actions"},"name":"test","status":"completed","conclusion":"success"}"#,
        )
    };
    for failed in [
        r#"{"id":1,"app":{"id":2},"name":"test","status":"completed","conclusion":"failure"}"#,
        r#"{"id":1,"app":{"id":1,"slug":"github-actions"},"name":"other test","status":"completed","conclusion":"cancelled"}"#,
        r#"{"app":{"id":1,"slug":"github-actions"},"name":"test","status":"completed","conclusion":"failure"}"#,
    ] {
        assert_eq!(check_runs(&[json(failed), successful()], &BTreeMap::new()), CheckState::Failed);
    }
    assert_eq!(check_runs(&[], &BTreeMap::new()), CheckState::Green);
}

#[test]
fn running_and_terminal_check_states() {
    for status in ["queued", "in_progress", "requested", "waiting", "pending"] {
        assert_eq!(
            check_run(&json(&format!(r#"{{"status":"{status}","conclusion":null}}"#))),
            CheckState::Running
        );
    }
    for conclusion in ["success", "neutral", "skipped"] {
        assert_eq!(
            check_run(&json(&format!(r#"{{"status":"completed","conclusion":"{conclusion}"}}"#))),
            CheckState::Green
        );
    }
    for conclusion in ["action_required", "cancelled", "timed_out", "failure", "stale", "startup_failure"] {
        assert_eq!(
            check_run(&json(&format!(r#"{{"status":"completed","conclusion":"{conclusion}"}}"#))),
            CheckState::Failed
        );
    }
    assert_eq!(CheckState::Running.max(CheckState::Failed), CheckState::Failed);
    assert_eq!(CheckState::Green.max(CheckState::Running), CheckState::Running);
    assert_eq!(CheckState::Running.worse(CheckState::Conflicts), CheckState::Conflicts);
}

#[test]
fn legacy_contexts_use_only_the_latest_result() {
    let mut statuses = vec![
        json(r#"{"id":4,"context":"deploy","state":"success"}"#),
        json(r#"{"id":2,"context":"tests","state":"success"}"#),
        json(r#"{"id":3,"context":"DEPLOY","state":"pending"}"#),
        json(r#"{"id":1,"context":"tests","state":"failure"}"#),
    ];
    assert_eq!(commit_statuses(&statuses), CheckState::Green);
    statuses.reverse();
    assert_eq!(commit_statuses(&statuses), CheckState::Green);
    statuses.push(json(r#"{"id":5,"context":"tests","state":"pending"}"#));
    assert_eq!(commit_statuses(&statuses), CheckState::Running);
    statuses.push(json(r#"{"id":6,"context":"deploy","state":"error"}"#));
    assert_eq!(commit_statuses(&statuses), CheckState::Failed);
    assert_eq!(commit_statuses(&[]), CheckState::Green);
}

/// A page with one workflow run for each of the given numbers.
fn page(numbers: std::ops::Range<u64>, head: &str) -> Json {
    let runs: Vec<String> = numbers
        .map(|n| {
            format!(
                r#"{{"id":{n},"workflow_id":7,"check_suite_id":{n},"event":"push","head_branch":"main","head_sha":"{head}"}}"#
            )
        })
        .collect();
    json(&format!(r#"{{"workflow_runs":[{}]}}"#, runs.join(",")))
}

#[test]
fn workflow_runs_are_read_page_by_page() {
    let fetch = WorkflowFetch::new("o/r", "abc");
    let args = fetch.request().unwrap().args;
    assert_eq!(
        args.last().unwrap(),
        "repos/o/r/actions/runs?head_sha=abc&per_page=100&page=1"
    );
    let fetch = fetch.accept(&page(0..100, "abc")).unwrap();
    assert!(!fetch.done);
    let args = fetch.request().unwrap().args;
    assert_eq!(
        args.last().unwrap(),
        "repos/o/r/actions/runs?head_sha=abc&per_page=100&page=2"
    );
    let fetch = fetch.accept(&page(200..201, "abc")).unwrap();
    assert!(fetch.done);
    assert!(fetch.request().is_none());
    assert_eq!(fetch.workflows.len(), 101);
    let last = &fetch.workflows[&200];
    assert_eq!((last.workflow, last.run), (7, 200));
    assert_eq!((last.event.as_str(), last.branch.as_str()), ("push", "main"));
}

#[test]
fn workflow_runs_of_other_commits_and_incomplete_ones_do_not_count() {
    let fetch = WorkflowFetch::new("o/r", "abc").accept(&page(0..3, "other")).unwrap();
    assert!(fetch.done);
    assert!(fetch.workflows.is_empty());
    let incomplete = json(r#"{"workflow_runs":[{"id":1,"check_suite_id":2,"event":"push","head_branch":"main","head_sha":"abc"}]}"#);
    let fetch = WorkflowFetch::new("o/r", "abc").accept(&incomplete).unwrap();
    assert!(fetch.workflows.is_empty());
    let error = WorkflowFetch::new("o/r", "abc").accept(&json("{}")).err().unwrap();
    assert_eq!(error, "Missing workflow runs");
}
