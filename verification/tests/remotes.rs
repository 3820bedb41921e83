use gerrit_upload::push::{push_progress_prefix, push_ref_name, push_update};
use gerrit_upload::remote::{
    calculate_push_ref, calculate_push_remote, contains_name, NoTargetBranch, RemoteError,
};

fn names(list: &[&str]) -> Vec<String> {
    list.iter().map(|s| s.to_string()).collect()
}

fn some(name: &str) -> Option<String> {
    Some(name.to_string())
}

#[test]
fn explicit_remote_wins_over_everything() {
    let remotes = names(&["origin", "gerrit", "review", "upstream"]);
    let result = calculate_push_remote(&remotes, some("review"), some("upstream"), some("origin"));
    assert_eq!(result, Ok("review".to_string()));
}

#[test]
fn unknown_explicit_remote_fails_even_with_other_sources() {
    let remotes = names(&["origin", "gerrit"]);
    let result = calculate_push_remote(&remotes, some("nowhere"), some("origin"), some("origin"));
    assert_eq!(result, Err(RemoteError::UnknownExplicit("nowhere".to_string())));
}

#[test]
fn configured_remote_wins_over_push_default_and_gerrit() {
    let remotes = names(&["origin", "gerrit", "review"]);
    let result = calculate_push_remote(&remotes, None, some("review"), some("origin"));
    assert_eq!(result, Ok("review".to_string()));
}

#[test]
fn unknown_configured_remote_fails() {
    let remotes = names(&["origin", "gerrit"]);
    let result = calculate_push_remote(&remotes, None, some("nowhere"), some("origin"));
    assert_eq!(result, Err(RemoteError::UnknownConfigured("nowhere".to_string())));
}

#[test]
fn push_default_wins_over_gerrit() {
    let remotes = names(&["origin", "gerrit"]);
    let result = calculate_push_remote(&remotes, None, None, some("origin"));
    assert_eq!(result, Ok("origin".to_string()));
}

#[test]
fn push_default_is_not_checked_against_the_remotes() {
    let result = calculate_push_remote(&names(&[]), None, None, some("elsewhere"));
    assert_eq!(result, Ok("elsewhere".to_string()));
}

#[test]
fn gerrit_remote_is_the_last_resort() {
    let remotes = names(&["origin", "gerrit"]);
    assert_eq!(calculate_push_remote(&remotes, None, None, None), Ok("gerrit".to_string()));
}

#[test]
fn no_source_and_no_gerrit_remote_fails() {
    let remotes = names(&["origin", "Gerrit"]);
    assert_eq!(calculate_push_remote(&remotes, None, None, None), Err(RemoteError::Undetermined));
    assert_eq!(calculate_push_remote(&names(&[]), None, None, None), Err(RemoteError::Undetermined));
}

#[test]
fn contains_name_matches_whole_names() {
    let remotes = names(&["origin", "gerrit"]);
    assert!(contains_name(&remotes, &"gerrit".to_string()));
    assert!(!contains_name(&remotes, &"gerr".to_string()));
    assert!(!contains_name(&names(&[]), &"gerrit".to_string()));
}

#[test]
fn explicit_branch_wins_over_configured() {
    assert_eq!(calculate_push_ref(some("main"), some("devel")), Ok("main".to_string()));
    assert_eq!(calculate_push_ref(some("main"), None), Ok("main".to_string()));
}

#[test]
fn configured_branch_is_used_without_explicit_one() {
    assert_eq!(calculate_push_ref(None, some("devel")), Ok("devel".to_string()));
}

#[test]
fn missing_branch_fails() {
    assert_eq!(calculate_push_ref(None, None), Err(NoTargetBranch));
}

#[test]
fn review_ref_is_derived_from_the_branch() {
    assert_eq!(push_ref_name("main"), "refs/for/main");
    assert_eq!(push_ref_name("release/1.0"), "refs/for/release/1.0");
    assert_eq!(push_ref_name(""), "refs/for/");
}

#[test]
fn update_has_no_expected_target() {
    let update = push_update("main", vec![5; 20]);
    assert_eq!(update.qualified_name, "refs/for/main");
    assert_eq!(update.expected_current_target, None);
    assert_eq!(update.new_target, Some(vec![5; 20]));
}

#[test]
fn progress_prefix_tells_dry_run_apart() {
    assert_eq!(push_progress_prefix(true), "Dry-run: Would push ");
    assert_eq!(push_progress_prefix(false), "Pushing ");
}
