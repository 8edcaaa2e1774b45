use scog::error::ErrorKind;
use scog::validate::branch;
use scog::validate::repository;

#[test]
fn test_validate_branch() {
    assert!(branch("_backup_test_bla").is_err());
    assert!(branch("master").is_ok());
}

#[test]
fn validate_branch_reports_on_backup_branch() {
    let e = branch("_backup_x").unwrap_err();
    assert_eq!(e.kind(), ErrorKind::OnBackupBranch);
    assert_eq!(e.error(), "can not pull or push from backup branch: '_backup_x'.");
}

#[test]
fn validate_repository_accepts_clean() {
    assert!(repository(false).is_ok());
}

#[test]
fn validate_repository_reports_dirty() {
    let e = repository(true).unwrap_err();
    assert_eq!(e.kind(), ErrorKind::RepositoryDirty);
    assert_eq!(e.error(), "can not pull or push if repository is dirty");
}
