use flodviddar::cancel::{
    cancel_next, cancel_start, detect_ci_environment, provider_action, CancelAction,
    CiEnvironment, EnvSnapshot, Provider, Step, Strategy,
};

fn env(pairs: &[(&str, &str)]) -> EnvSnapshot {
    let mut e = EnvSnapshot::new();
    for (k, v) in pairs {
        e.set(k.to_string(), v.to_string());
    }
    e
}

fn outcome(a: &CancelAction) -> (Strategy, bool, String) {
    match a {
        CancelAction::Finish(o) => (o.strategy_used, o.succeeded, o.detail.clone()),
        _ => panic!("expected a finished attempt"),
    }
}

#[test]
fn lookup_takes_the_first_entry() {
    let e = env(&[("A", "1"), ("B", "2"), ("A", "3")]);
    assert_eq!(e.get("A"), Some("1".to_string()));
    assert_eq!(e.get("B"), Some("2".to_string()));
    assert_eq!(e.get("C"), None);
}

#[test]
fn script_path_prefers_override_then_home_then_tmp() {
    let ci = detect_ci_environment(&env(&[("FLODVIDDAR_CANCEL_SCRIPT", "/opt/c.sh"), ("HOME", "/home/u")]));
    assert_eq!(ci.script_path, "/opt/c.sh");
    let ci = detect_ci_environment(&env(&[("HOME", "/home/u")]));
    assert_eq!(ci.script_path, "/home/u/cancel_pipeline.sh");
    let ci = detect_ci_environment(&env(&[]));
    assert_eq!(ci.script_path, "/tmp/cancel_pipeline.sh");
}

#[test]
fn no_markers_give_no_strategy() {
    let ci = detect_ci_environment(&env(&[]));
    assert!(matches!(ci.provider, Provider::NoProvider));
    let a = cancel_start(&ci, "violation", false);
    let (s, ok, detail) = outcome(&a);
    assert_eq!(s, Strategy::NoStrategy);
    assert!(!ok);
    assert_eq!(detail, "no CI provider detected");
}

#[test]
fn script_goes_first_and_success_stops_the_chain() {
    let ci = detect_ci_environment(&env(&[
        ("GITHUB_ACTIONS", "true"),
        ("GITHUB_RUN_ID", "42"),
        ("GITHUB_REPOSITORY", "o/r"),
    ]));
    let a = cancel_start(&ci, "bad traffic", true);
    match &a {
        CancelAction::RunScript { path, reason } => {
            assert_eq!(path, &ci.script_path);
            assert_eq!(reason, "bad traffic");
        }
        _ => panic!("expected the script first"),
    }
    let done = cancel_next(&ci, a, true);
    assert_eq!(done.kind(), Step::Finish(Strategy::Script, true));
}

#[test]
fn failed_script_falls_back_to_github() {
    let ci = detect_ci_environment(&env(&[
        ("GITHUB_ACTIONS", "true"),
        ("GITHUB_RUN_ID", "42"),
        ("GITHUB_REPOSITORY", "o/r"),
    ]));
    let a = cancel_start(&ci, "x", true);
    let b = cancel_next(&ci, a, false);
    match &b {
        CancelAction::CancelGithubRun { run_id, repository } => {
            assert_eq!(run_id, "42");
            assert_eq!(repository, "o/r");
        }
        _ => panic!("expected the GitHub strategy"),
    }
    let ok = cancel_next(&ci, b, true);
    assert_eq!(ok.kind(), Step::Finish(Strategy::GithubApi, true));
    let failed = cancel_next(&ci, provider_action(&ci), false);
    assert_eq!(failed.kind(), Step::Finish(Strategy::NoStrategy, false));
}

#[test]
fn github_marker_excludes_gitlab() {
    let ci = detect_ci_environment(&env(&[
        ("GITLAB_CI", "true"),
        ("CI_PROJECT_ID", "1"),
        ("CI_PIPELINE_ID", "2"),
        ("GITLAB_TOKEN", "SECRET-REDACTED"),
        ("GITHUB_ACTIONS", "true"),
    ]));
    assert!(matches!(ci.provider, Provider::GitHub { .. }));
    let a = cancel_start(&ci, "x", false);
    let (s, ok, detail) = outcome(&a);
    assert_eq!(s, Strategy::NoStrategy);
    assert!(!ok);
    assert_eq!(detail, "missing GITHUB_RUN_ID or GITHUB_REPOSITORY");
}

#[test]
fn gitlab_with_all_credentials_calls_out() {
    let ci = detect_ci_environment(&env(&[
        ("GITLAB_CI", "true"),
        ("CI_PROJECT_ID", "11"),
        ("CI_PIPELINE_ID", "22"),
        ("GITLAB_TOKEN", "tok"),
    ]));
    let a = cancel_start(&ci, "x", false);
    match &a {
        CancelAction::CancelGitlabPipeline { project_id, pipeline_id, token } => {
            assert_eq!(project_id, "11");
            assert_eq!(pipeline_id, "22");
            assert_eq!(token, "tok");
        }
        _ => panic!("expected the GitLab strategy"),
    }
    assert_eq!(cancel_next(&ci, a, true).kind(), Step::Finish(Strategy::GitlabApi, true));
}

#[test]
fn gitlab_missing_token_makes_no_call() {
    let ci = detect_ci_environment(&env(&[
        ("GITLAB_CI", "true"),
        ("CI_PROJECT_ID", "11"),
        ("CI_PIPELINE_ID", "22"),
    ]));
    let a = cancel_start(&ci, "x", false);
    let (s, ok, detail) = outcome(&a);
    assert_eq!(s, Strategy::NoStrategy);
    assert!(!ok);
    assert_eq!(detail, "missing CI_PROJECT_ID, CI_PIPELINE_ID or GITLAB_TOKEN");
}

#[test]
fn finished_attempt_stays_finished() {
    let ci = CiEnvironment { script_path: "/s".to_string(), provider: Provider::NoProvider };
    let a = cancel_start(&ci, "x", false);
    let b = cancel_next(&ci, a, true);
    assert_eq!(b.kind(), Step::Finish(Strategy::NoStrategy, false));
}
