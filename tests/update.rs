use std::cell::Cell;
use std::path::PathBuf;

use repo_update::branch::{fetch_failure, stash_event, BranchAction, BranchUpdate, Stage, StepEvent};
use repo_update::config::{RepoConfig, DEFAULT_BRANCH, DEFAULT_REMOTE};
use repo_update::cred::{
    username_candidates, AllowedKinds, CredentialAction, CredentialKind, CredentialResolver,
};
use repo_update::outcome::{
    classify, failure_kind, BranchOutcome, EngineClass, EngineCode, EngineFailure, FailureKind,
};
use repo_update::repo::{run_failed, update_repo, BranchSpec, RepoRun, RepoTarget};

fn kinds(username: bool, ssh_key: bool, user_pass: bool, default_cred: bool) -> AllowedKinds {
    AllowedKinds { username, ssh_key, user_pass, default_cred }
}

fn target(path: &str, remote: &str) -> RepoTarget {
    RepoTarget { path: path.to_string(), remote: remote.to_string() }
}

fn failure(kind: FailureKind, detail: &str) -> EngineFailure {
    EngineFailure { kind, detail: detail.to_string() }
}

fn never_called(_remote: &str, _branch: &str, _stash: bool) -> BranchOutcome {
    panic!("no branch may be updated in an invalid repository")
}

#[test]
fn test_update_repo_invalid_repo() {
    let path = PathBuf::from("/");
    let mut branches = BranchSpec::new();
    branches.insert(String::from("master"), true);
    let valid = git2::Repository::open(&path).is_ok();
    let t = target(path.to_str().unwrap(), "origin");
    assert!(update_repo(&t, &branches, valid, never_called).is_err());
}

#[test]
fn invalid_path_marks_the_branch_invalid() {
    let mut branches = BranchSpec::new();
    branches.insert(String::from("master"), true);
    let r = update_repo(&target("/", "origin"), &branches, false, never_called);
    assert_eq!(r.len(), 1);
    assert_eq!(r.get("master"), Some(&BranchOutcome::InvalidRepo));
}

#[test]
fn invalid_repository_marks_every_branch() {
    let mut branches = BranchSpec::new();
    for name in ["main", "dev", "release"] {
        branches.insert(name.to_string(), false);
    }
    let r = update_repo(&target("/tmp/none", "origin"), &branches, false, never_called);
    assert_eq!(r.len(), 3);
    for name in ["main", "dev", "release"] {
        assert_eq!(r.get(name), Some(&BranchOutcome::InvalidRepo));
    }
}

#[test]
fn result_names_exactly_the_branches_asked_for() {
    let mut branches = BranchSpec::new();
    branches.insert("a".to_string(), false);
    branches.insert("b".to_string(), true);
    branches.insert("a".to_string(), true);
    assert_eq!(branches.len(), 2);
    let r = update_repo(&target(".", "origin"), &branches, true, |_: &str, b: &str, _: bool| {
        if b == "a" {
            BranchOutcome::MergeError
        } else {
            BranchOutcome::Success
        }
    });
    assert_eq!(r.len(), 2);
    assert_eq!(r.entry(0).0, "a");
    assert_eq!(r.entry(1).0, "b");
    assert_eq!(r.get("a"), Some(&BranchOutcome::MergeError));
    assert_eq!(r.get("b"), Some(&BranchOutcome::Success));
    assert_eq!(r.get("c"), None);
}

#[test]
fn empty_branch_set_gives_empty_result() {
    let branches = BranchSpec::new();
    let r = update_repo(&target(".", "origin"), &branches, true, never_called);
    assert_eq!(r.len(), 0);
    assert!(r.is_ok());
    assert_eq!(r.summary(), "every branch was updated");
}

#[test]
fn unreachable_remote_every_branch_attempted() {
    let mut branches = BranchSpec::new();
    branches.insert("main".to_string(), false);
    branches.insert("dev".to_string(), false);
    let calls = Cell::new(0u32);
    let r = update_repo(&target(".", "origin"), &branches, true, |remote: &str, _: &str, _: bool| {
        assert_eq!(remote, "origin");
        calls.set(calls.get() + 1);
        BranchOutcome::NetworkError
    });
    assert_eq!(calls.get(), 2);
    assert_eq!(r.get("main"), Some(&BranchOutcome::NetworkError));
    assert_eq!(r.get("dev"), Some(&BranchOutcome::NetworkError));
    assert!(r.is_err());
}

#[test]
fn branch_updater_receives_remote_name_and_stash_flag() {
    let mut branches = BranchSpec::new();
    branches.insert("feature".to_string(), true);
    let r = update_repo(&target(".", "upstream"), &branches, true, |remote: &str, b: &str, s: bool| {
        if remote == "upstream" && b == "feature" && s {
            BranchOutcome::Success
        } else {
            BranchOutcome::Unknown(format!("{remote} {b} {s}"))
        }
    });
    assert_eq!(r.get("feature"), Some(&BranchOutcome::Success));
}

#[test]
fn agent_tried_once_then_helper() {
    let mut r = CredentialResolver::new(username_candidates(None, None, None));
    let a = r.respond(kinds(false, true, false, false), Some("alice"));
    assert!(matches!(a, CredentialAction::SshAgent(ref n) if n == "alice"));
    let b = r.respond(kinds(false, true, true, false), Some("alice"));
    assert!(matches!(b, CredentialAction::CredentialHelper));
    assert_eq!(r.agent_attempts(), &vec!["alice".to_string()]);
    let c = r.respond(kinds(false, true, true, false), Some("alice"));
    assert!(matches!(c, CredentialAction::Refuse));
    assert_eq!(r.agent_attempts().len(), 1);
    assert!(r.is_exhausted());
}

#[test]
fn agent_accepts_git_on_first_round() {
    let mut r = CredentialResolver::new(username_candidates(None, None, None));
    let a = r.respond(kinds(false, true, false, false), Some("git"));
    assert!(matches!(a, CredentialAction::SshAgent(ref n) if n == "git"));
    assert_eq!(r.agent_attempts(), &vec!["git".to_string()]);
    r.record_accepted();
    assert_eq!(r.attempts().len(), 1);
    assert_eq!(r.attempts()[0].kind, CredentialKind::SshAgent);
    assert_eq!(r.attempts()[0].identity, "git");
    assert!(r.attempts()[0].accepted);
    let (mut u, first) = BranchUpdate::start(false);
    assert!(matches!(first, BranchAction::Open));
    assert!(matches!(u.step(StepEvent::Completed), BranchAction::Fetch));
    match u.step(StepEvent::Completed) {
        BranchAction::Finish(o) => assert_eq!(o, BranchOutcome::Success),
        other => panic!("unexpected {:?}", other),
    }
}

#[test]
fn username_requests_walk_the_candidates_in_order() {
    let c = username_candidates(
        Some("configured".to_string()),
        Some("me".to_string()),
        Some("helper".to_string()),
    );
    assert_eq!(c, vec!["configured", "me", "helper", "git"]);
    let mut r = CredentialResolver::new(c);
    let mut offered = Vec::new();
    for _ in 0..4 {
        match r.respond(kinds(true, false, false, false), None) {
            CredentialAction::Username(n) => offered.push(n),
            other => panic!("unexpected {:?}", other),
        }
    }
    assert_eq!(offered, vec!["configured", "me", "helper", "git"]);
    assert!(matches!(r.respond(kinds(true, false, false, false), None), CredentialAction::Refuse));
    assert!(r.is_exhausted());
}

#[test]
fn key_request_uses_the_name_handed_out_last() {
    let mut r = CredentialResolver::new(username_candidates(None, Some("me".to_string()), None));
    assert!(matches!(r.respond(kinds(true, false, false, false), None), CredentialAction::Username(ref n) if n == "me"));
    assert!(matches!(r.respond(kinds(false, true, false, false), None), CredentialAction::SshAgent(ref n) if n == "me"));
    assert!(matches!(r.respond(kinds(true, false, false, false), None), CredentialAction::Username(ref n) if n == "git"));
    assert!(matches!(r.respond(kinds(false, true, false, false), None), CredentialAction::SshAgent(ref n) if n == "git"));
    assert_eq!(r.agent_attempts(), &vec!["me".to_string(), "git".to_string()]);
}

#[test]
fn key_request_without_any_name_uses_default_identity() {
    let mut r = CredentialResolver::new(Vec::new());
    assert!(matches!(r.respond(kinds(false, true, false, false), None), CredentialAction::SshAgent(ref n) if n == "git"));
}

#[test]
fn default_credential_is_the_last_resort() {
    let mut r = CredentialResolver::new(Vec::new());
    assert!(matches!(r.respond(kinds(false, false, false, true), None), CredentialAction::Default));
    assert!(!r.is_exhausted());
    assert!(matches!(r.respond(kinds(false, false, false, true), None), CredentialAction::Refuse));
    assert!(r.is_exhausted());
}

#[test]
fn nothing_offered_refuses() {
    let mut r = CredentialResolver::new(Vec::new());
    assert!(matches!(r.respond(kinds(false, false, false, false), None), CredentialAction::Refuse));
    assert!(r.is_exhausted());
}

#[test]
fn failure_message_lists_agent_names_and_helper_error() {
    let mut r = CredentialResolver::new(Vec::new());
    r.respond(kinds(false, true, false, false), Some("a"));
    r.respond(kinds(false, true, false, false), Some("b"));
    r.respond(kinds(false, false, true, false), Some("b"));
    r.record_helper_result(true);
    assert_eq!(
        r.failure_message(),
        "failed to authenticate when downloading repository\n\
         attempted ssh-agent authentication, but none of the usernames `a`, `b` succeeded\n\
         attempted to find username/password via git's `credential.helper` support, but failed"
    );
}

#[test]
fn failure_message_for_rejected_helper_credentials() {
    let mut r = CredentialResolver::new(Vec::new());
    r.respond(kinds(false, false, true, false), None);
    r.record_helper_result(false);
    assert_eq!(
        r.failure_message(),
        "failed to authenticate when downloading repository\n\
         attempted to find username/password via `credential.helper`, but maybe the found credentials were incorrect"
    );
}

#[test]
fn failure_message_with_nothing_tried() {
    let r = CredentialResolver::new(Vec::new());
    assert_eq!(r.failure_message(), "failed to authenticate when downloading repository");
}

#[test]
fn exhausted_cascade_turns_fetch_error_into_auth_error() {
    let mut r = CredentialResolver::new(Vec::new());
    r.respond(kinds(false, true, false, false), Some("git"));
    r.respond(kinds(false, true, false, false), Some("git"));
    let f = fetch_failure(FailureKind::Other, "callback error".to_string(), &r);
    assert_eq!(f.kind, FailureKind::Auth);
    assert_eq!(
        classify(f),
        BranchOutcome::AuthError(
            "failed to authenticate when downloading repository\n\
             attempted ssh-agent authentication, but none of the usernames `git` succeeded"
                .to_string()
        )
    );
}

#[test]
fn network_error_after_accepted_credential() {
    let mut r = CredentialResolver::new(Vec::new());
    r.respond(kinds(false, true, false, false), Some("git"));
    let f = fetch_failure(FailureKind::Network, "connection refused".to_string(), &r);
    assert_eq!(f.kind, FailureKind::Network);
    assert_eq!(f.detail, "connection refused");
    assert_eq!(classify(f), BranchOutcome::NetworkError);
}

#[test]
fn classify_each_failure_kind() {
    assert_eq!(classify(failure(FailureKind::NotARepository, "x")), BranchOutcome::InvalidRepo);
    assert_eq!(classify(failure(FailureKind::Network, "x")), BranchOutcome::NetworkError);
    assert_eq!(classify(failure(FailureKind::Auth, "denied")), BranchOutcome::AuthError("denied".to_string()));
    assert_eq!(classify(failure(FailureKind::Conflict, "x")), BranchOutcome::MergeError);
    assert_eq!(classify(failure(FailureKind::Other, "odd")), BranchOutcome::Unknown("odd".to_string()));
}

#[test]
fn stash_restored_after_merge_conflict() {
    let (mut u, _) = BranchUpdate::start(true);
    assert!(matches!(u.step(StepEvent::Completed), BranchAction::Fetch));
    assert!(matches!(u.step(StepEvent::Completed), BranchAction::Stash));
    assert!(matches!(u.step(StepEvent::Completed), BranchAction::Merge));
    assert!(u.stashed);
    let a = u.step(StepEvent::Failed(failure(FailureKind::Conflict, "conflict in a.txt")));
    assert!(matches!(a, BranchAction::Unstash));
    assert!(u.stashed);
    match u.step(StepEvent::Completed) {
        BranchAction::Finish(o) => assert_eq!(o, BranchOutcome::MergeError),
        other => panic!("unexpected {:?}", other),
    }
    assert!(!u.stashed);
    assert_eq!(u.stage, Stage::Done);
}

#[test]
fn stash_and_merge_succeed() {
    let (mut u, _) = BranchUpdate::start(true);
    u.step(StepEvent::Completed);
    u.step(StepEvent::Completed);
    u.step(StepEvent::Completed);
    assert!(matches!(u.step(StepEvent::Completed), BranchAction::Unstash));
    assert!(matches!(u.step(StepEvent::Completed), BranchAction::Finish(BranchOutcome::Success)));
}

#[test]
fn nothing_to_stash_merges_without_restoring() {
    let (mut u, _) = BranchUpdate::start(true);
    u.step(StepEvent::Completed);
    u.step(StepEvent::Completed);
    assert!(matches!(u.step(StepEvent::NothingToStash), BranchAction::Merge));
    assert!(!u.stashed);
    let a = u.step(StepEvent::Failed(failure(FailureKind::Conflict, "c")));
    assert!(matches!(a, BranchAction::Finish(BranchOutcome::MergeError)));
}

#[test]
fn failed_restore_is_reported() {
    let (mut u, _) = BranchUpdate::start(true);
    u.step(StepEvent::Completed);
    u.step(StepEvent::Completed);
    u.step(StepEvent::Completed);
    u.step(StepEvent::Completed);
    let a = u.step(StepEvent::Failed(failure(FailureKind::Other, "pop failed")));
    assert!(matches!(a, BranchAction::Finish(BranchOutcome::Unknown(ref d)) if d == "pop failed"));
}

#[test]
fn open_failure_is_invalid_repo_and_fetch_failure_is_classified() {
    let (mut u, _) = BranchUpdate::start(false);
    let a = u.step(StepEvent::Failed(failure(FailureKind::Other, "not a repo")));
    assert!(matches!(a, BranchAction::Finish(BranchOutcome::InvalidRepo)));
    let (mut v, _) = BranchUpdate::start(true);
    v.step(StepEvent::Completed);
    let b = v.step(StepEvent::Failed(failure(FailureKind::Network, "unreachable")));
    assert!(matches!(b, BranchAction::Finish(BranchOutcome::NetworkError)));
}

#[test]
fn summary_lists_failed_branches() {
    let mut branches = BranchSpec::new();
    branches.insert("main".to_string(), false);
    branches.insert("dev".to_string(), false);
    branches.insert("ok".to_string(), false);
    let r = update_repo(&target(".", "origin"), &branches, true, |_: &str, b: &str, _: bool| match b {
        "main" => BranchOutcome::AuthError("no key".to_string()),
        "dev" => BranchOutcome::NetworkError,
        _ => BranchOutcome::Success,
    });
    assert_eq!(r.summary(), "main: AuthError: no key\ndev: NetworkError\n");
}

#[test]
fn outcome_names_and_details() {
    assert_eq!(BranchOutcome::InvalidRepo.kind_name(), "InvalidRepo");
    assert_eq!(BranchOutcome::Unknown("why".to_string()).kind_name(), "Unknown");
    assert_eq!(BranchOutcome::Unknown("why".to_string()).detail(), "why");
    assert_eq!(BranchOutcome::MergeError.detail(), "");
    assert!(BranchOutcome::Success.is_success());
    assert!(!BranchOutcome::NetworkError.is_success());
}

#[test]
fn run_fails_when_any_branch_failed() {
    let mut branches = BranchSpec::new();
    branches.insert("main".to_string(), false);
    let good = update_repo(&target(".", "origin"), &branches, true, |_: &str, _: &str, _: bool| BranchOutcome::Success);
    let bad = update_repo(&target("/", "origin"), &branches, false, never_called);
    assert!(!run_failed(&vec![]));
    assert!(!run_failed(&vec![good]));
    let good = update_repo(&target(".", "origin"), &branches, true, |_: &str, _: &str, _: bool| BranchOutcome::Success);
    assert!(run_failed(&vec![good, bad]));
}

#[test]
fn config_defaults() {
    let c = RepoConfig { path: "/srv/repo".to_string(), branches: None, remote: None };
    assert_eq!(c.remote_name(), DEFAULT_REMOTE);
    let b = c.branch_spec();
    assert_eq!(b.len(), 1);
    assert_eq!(b.entry(0), (DEFAULT_BRANCH, false));
    let t = c.target();
    assert_eq!(t.path, "/srv/repo");
    assert_eq!(t.remote, "origin");
    let mut own = BranchSpec::new();
    own.insert("dev".to_string(), true);
    let c = RepoConfig { path: ".".to_string(), branches: Some(own), remote: Some("upstream".to_string()) };
    assert_eq!(c.remote_name(), "upstream");
    assert_eq!(c.branch_spec().entry(0), ("dev", true));
}

#[test]
fn every_offer_is_recorded_in_order() {
    let mut r = CredentialResolver::new(username_candidates(None, Some("me".to_string()), None));
    r.respond(kinds(true, false, false, false), None);
    r.respond(kinds(false, true, false, false), Some("me"));
    r.respond(kinds(false, true, true, false), Some("me"));
    r.record_helper_result(false);
    r.respond(kinds(false, false, false, true), Some("me"));
    r.respond(kinds(false, false, false, true), Some("me"));
    let kinds_seen: Vec<CredentialKind> = r.attempts().iter().map(|a| a.kind).collect();
    assert_eq!(
        kinds_seen,
        vec![
            CredentialKind::Username,
            CredentialKind::SshAgent,
            CredentialKind::CredentialHelper,
            CredentialKind::Default,
        ]
    );
    assert!(r.attempts().iter().all(|a| a.identity == "me" && !a.accepted));
    assert!(r.is_exhausted());
}

#[test]
fn record_accepted_without_offers_changes_nothing() {
    let mut r = CredentialResolver::new(Vec::new());
    r.record_accepted();
    assert!(r.attempts().is_empty());
}

#[test]
fn auth_error_without_any_offer_keeps_engine_text() {
    let r = CredentialResolver::new(Vec::new());
    let f = fetch_failure(FailureKind::Auth, "remote said no".to_string(), &r);
    assert_eq!(f.kind, FailureKind::Auth);
    assert_eq!(f.detail, "remote said no");
}

#[test]
fn auth_error_after_an_offer_gets_the_diagnostic() {
    let mut r = CredentialResolver::new(Vec::new());
    r.respond(kinds(false, true, false, false), Some("git"));
    let f = fetch_failure(FailureKind::Auth, "remote said no".to_string(), &r);
    assert_eq!(
        f.detail,
        "failed to authenticate when downloading repository\n\
         attempted ssh-agent authentication, but none of the usernames `git` succeeded"
    );
}

#[test]
fn failed_restore_after_merge_conflict_is_reported_and_stash_kept() {
    let (mut u, _) = BranchUpdate::start(true);
    u.step(StepEvent::Completed);
    u.step(StepEvent::Completed);
    u.step(StepEvent::Completed);
    u.step(StepEvent::Failed(failure(FailureKind::Conflict, "conflict")));
    let a = u.step(StepEvent::Failed(failure(FailureKind::Conflict, "stash pop conflicts")));
    assert!(matches!(a, BranchAction::Finish(BranchOutcome::Unknown(ref d)) if d == "stash pop conflicts"));
    assert!(u.stashed);
    assert_eq!(u.stage, Stage::Done);
    let again = u.step(StepEvent::Completed);
    assert!(matches!(again, BranchAction::Finish(BranchOutcome::Unknown(_))));
}

#[test]
fn repo_run_hands_out_each_branch_once() {
    let mut branches = BranchSpec::new();
    branches.insert("main".to_string(), false);
    branches.insert("dev".to_string(), true);
    let mut run = RepoRun::start(branches, true);
    let mut handed = Vec::new();
    while let Some((name, stash)) = run.next_branch() {
        handed.push((name.clone(), stash));
        run.record(BranchOutcome::NetworkError);
    }
    assert_eq!(handed, vec![("main".to_string(), false), ("dev".to_string(), true)]);
    let r = run.finish();
    assert_eq!(r.get("main"), Some(&BranchOutcome::NetworkError));
    assert_eq!(r.get("dev"), Some(&BranchOutcome::NetworkError));
}

#[test]
fn repo_run_of_invalid_repository_hands_out_nothing() {
    let mut branches = BranchSpec::new();
    branches.insert("master".to_string(), true);
    let run = RepoRun::start(branches, false);
    assert!(run.next_branch().is_none());
    let r = run.finish();
    assert_eq!(r.get("master"), Some(&BranchOutcome::InvalidRepo));
}

#[test]
fn next_candidate_gets_another_fetch() {
    let mut r = CredentialResolver::new(username_candidates(None, Some("me".to_string()), None));
    assert!(matches!(r.respond(kinds(true, false, false, false), None), CredentialAction::Username(ref n) if n == "me"));
    assert!(matches!(r.respond(kinds(false, true, false, false), Some("me")), CredentialAction::SshAgent(_)));
    assert!(matches!(r.respond(kinds(false, true, false, false), Some("me")), CredentialAction::Refuse));
    assert!(!r.should_fetch_again(false));
    assert!(r.should_fetch_again(true));
    r.begin_next_fetch();
    assert!(!r.is_exhausted());
    assert!(matches!(r.respond(kinds(true, false, false, false), None), CredentialAction::Username(ref n) if n == "git"));
    assert!(matches!(r.respond(kinds(false, true, false, false), Some("git")), CredentialAction::SshAgent(ref n) if n == "git"));
    assert!(matches!(r.respond(kinds(false, true, false, false), Some("git")), CredentialAction::Refuse));
    assert!(!r.should_fetch_again(true));
}

#[test]
fn no_fetch_again_without_a_candidate_handed_out() {
    let mut r = CredentialResolver::new(username_candidates(None, Some("me".to_string()), None));
    assert!(matches!(r.respond(kinds(false, true, false, false), Some("user")), CredentialAction::SshAgent(_)));
    assert!(matches!(r.respond(kinds(false, true, false, false), Some("user")), CredentialAction::Refuse));
    assert!(!r.should_fetch_again(true));
}

#[test]
fn engine_errors_map_to_failure_kinds() {
    assert_eq!(failure_kind(EngineCode::Auth, EngineClass::Net), FailureKind::Auth);
    assert_eq!(failure_kind(EngineCode::MergeConflict, EngineClass::Other), FailureKind::Conflict);
    assert_eq!(failure_kind(EngineCode::Conflict, EngineClass::Other), FailureKind::Conflict);
    assert_eq!(failure_kind(EngineCode::NotFound, EngineClass::Repository), FailureKind::NotARepository);
    assert_eq!(failure_kind(EngineCode::Other, EngineClass::Ssh), FailureKind::Network);
    assert_eq!(failure_kind(EngineCode::Other, EngineClass::Http), FailureKind::Network);
    assert_eq!(failure_kind(EngineCode::Other, EngineClass::Other), FailureKind::Other);
}

#[test]
fn empty_stash_is_not_a_failure() {
    assert!(matches!(stash_event(EngineCode::NotFound, failure(FailureKind::Other, "x")), StepEvent::NothingToStash));
    assert!(matches!(stash_event(EngineCode::Other, failure(FailureKind::Other, "x")), StepEvent::Failed(_)));
}
