use scog::error::ErrorKind;
use scog::resolve::fast_forward_decision;
use scog::resolve::find_branch;
use scog::resolve::FastForward;

fn names(words: &[&str]) -> Vec<String> {
    words.iter().map(|w| w.to_string()).collect()
}

#[test]
fn find_branch_prefers_local() {
    let f = find_branch(
        "main",
        &names(&["main", "origin/main"]),
        &names(&["origin"]),
    )
    .unwrap();
    assert_eq!(f.name, "main");
    assert!(!f.remote);
}

#[test]
fn find_branch_falls_back_to_a_remote() {
    let f = find_branch(
        "dev",
        &names(&["main", "origin/dev"]),
        &names(&["origin"]),
    )
    .unwrap();
    assert_eq!(f.name, "origin/dev");
    assert!(f.remote);
}

#[test]
fn find_branch_takes_remotes_in_declaration_order() {
    let f = find_branch(
        "dev",
        &names(&["first/dev", "second/dev"]),
        &names(&["second", "first"]),
    )
    .unwrap();
    assert_eq!(f.name, "second/dev");
    assert!(f.remote);
}

#[test]
fn find_branch_reports_not_found() {
    let e = find_branch("gone", &names(&["main"]), &names(&["origin"])).unwrap_err();
    assert_eq!(e.kind(), ErrorKind::BranchNotFound);
    assert_eq!(e.error(), "can not locate remote or local branch 'gone'");
}

#[test]
fn fast_forward_equal_tips_is_a_no_op() {
    let tip = "abc123".to_string();
    assert_eq!(fast_forward_decision(&tip, &tip, &tip), FastForward::UpToDate);
}

#[test]
fn fast_forward_local_ahead_is_a_no_op() {
    let local = "def".to_string();
    let upstream = "abc".to_string();
    assert_eq!(
        fast_forward_decision(&local, &upstream, &upstream),
        FastForward::UpToDate
    );
}

#[test]
fn fast_forward_upstream_ahead_advances() {
    let local = "abc".to_string();
    let upstream = "def".to_string();
    assert_eq!(
        fast_forward_decision(&local, &upstream, &local),
        FastForward::Advance
    );
}

#[test]
fn fast_forward_divergence_is_refused() {
    let local = "abc".to_string();
    let upstream = "def".to_string();
    let base = "000".to_string();
    assert_eq!(
        fast_forward_decision(&local, &upstream, &base),
        FastForward::Diverged
    );
}
