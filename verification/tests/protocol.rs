use scog::error::ErrorKind;
use scog::session::Action;
use scog::session::Event;
use scog::session::Phase;
use scog::session::Session;
use scog::time::Timestamp;

fn stamp() -> Timestamp {
    Timestamp { year: 2024, month: 3, day: 7, hour: 9, minute: 5, second: 30, micros: 42 }
}

fn begin(branch: &str, dirty: bool) -> Event {
    Event::Begin { branch: branch.to_string(), dirty, stamp: stamp() }
}

const STAMP_STR: &str = "2024-03-07_09-05-30_000042";

#[test]
fn pull_refuses_a_dirty_repository() {
    let mut s = Session::new_pull();
    match s.step(begin("main", true)) {
        Action::Abort { error } => {
            assert_eq!(error.kind(), ErrorKind::RepositoryDirty);
            assert_eq!(error.error(), "can not pull or push if repository is dirty");
        }
        _ => panic!("expected an abort"),
    }
    assert_eq!(s.phase(), Phase::Failed);
    assert!(!s.accepts(&Event::OpOk));
    assert!(!s.accepts(&begin("main", false)));
    assert!(!s.accepts(&Event::Mirrored { index_dirty: false }));
}

#[test]
fn push_refuses_a_dirty_repository() {
    let mut s = Session::new_push();
    match s.step(begin("main", true)) {
        Action::Abort { error } => assert_eq!(error.kind(), ErrorKind::RepositoryDirty),
        _ => panic!("expected an abort"),
    }
    assert_eq!(s.phase(), Phase::Failed);
}

#[test]
fn pull_refuses_a_backup_branch() {
    let mut s = Session::new_pull();
    match s.step(begin("_backup_main_x", false)) {
        Action::Abort { error } => {
            assert_eq!(error.kind(), ErrorKind::OnBackupBranch);
            assert_eq!(
                error.error(),
                "can not pull or push from backup branch: '_backup_main_x'."
            );
        }
        _ => panic!("expected an abort"),
    }
    assert_eq!(s.phase(), Phase::Failed);
    assert!(!s.accepts(&Event::OpOk));
}

#[test]
fn push_refuses_a_backup_branch() {
    let mut s = Session::new_push();
    match s.step(begin("_backup_x", false)) {
        Action::Abort { error } => assert_eq!(error.kind(), ErrorKind::OnBackupBranch),
        _ => panic!("expected an abort"),
    }
}

#[test]
fn pull_divergence_aborts_with_not_fast_forward() {
    let mut s = Session::new_pull();
    match s.step(begin("main", false)) {
        Action::FastForward { branch } => assert_eq!(branch, "main"),
        _ => panic!("expected the fast-forward first"),
    }
    match s.step(Event::Diverged) {
        Action::Abort { error } => {
            assert_eq!(error.kind(), ErrorKind::NotFastForward);
            assert_eq!(error.error(), "can not fast forward branch: main, fix this manually");
        }
        _ => panic!("expected an abort"),
    }
    assert_eq!(s.phase(), Phase::Failed);
}

#[test]
fn any_failed_operation_aborts_with_its_class() {
    for kind in [
        ErrorKind::FetchFailed,
        ErrorKind::CommitFailed,
        ErrorKind::PushFailed,
        ErrorKind::DeleteBranchFailed,
        ErrorKind::CopyFailed,
    ] {
        let mut s = Session::new_pull();
        s.step(begin("main", false));
        match s.step(Event::OpFailed { kind, message: "boom".to_string() }) {
            Action::Abort { error } => {
                assert_eq!(error.kind(), kind);
                assert_eq!(error.error(), "boom");
            }
            _ => panic!("expected an abort"),
        }
        assert_eq!(s.phase(), Phase::Failed);
    }
}

/// Drives one pull in which the mirrored files equal the repository's copy:
/// the backup branch is created and deleted again.
fn drive_clean_pull(expected_backup: &str) {
    let mut s = Session::new_pull();
    match s.step(begin("main", false)) {
        Action::FastForward { branch } => assert_eq!(branch, "main"),
        _ => panic!("step (a): fast-forward expected"),
    }
    match s.step(Event::OpOk) {
        Action::CreateBackup { name } => assert_eq!(name, expected_backup),
        _ => panic!("step (b): backup creation expected"),
    }
    match s.step(Event::OpOk) {
        Action::MirrorToRepo => {}
        _ => panic!("step (c): mirroring expected"),
    }
    match s.step(Event::Mirrored { index_dirty: false }) {
        Action::Restore { branch } => assert_eq!(branch, "main"),
        _ => panic!("step (e): restore expected"),
    }
    match s.step(Event::OpOk) {
        Action::DeleteBackup { name } => assert_eq!(name, expected_backup),
        _ => panic!("step (f): deletion expected"),
    }
    match s.step(Event::OpOk) {
        Action::MirrorToHost => {}
        _ => panic!("step (g): copy back expected"),
    }
    match s.step(Event::OpOk) {
        Action::Finish => {}
        _ => panic!("finish expected"),
    }
    assert_eq!(s.phase(), Phase::Done);
}

#[test]
fn pull_with_identical_content_deletes_its_backup() {
    drive_clean_pull(&format!("_backup_main_{}", STAMP_STR));
}

#[test]
fn pull_twice_leaves_no_residual_branch() {
    let backup = format!("_backup_main_{}", STAMP_STR);
    drive_clean_pull(&backup);
    drive_clean_pull(&backup);
}

#[test]
fn pull_with_local_edits_retains_its_backup() {
    let backup = format!("_backup_main_{}", STAMP_STR);
    let mut s = Session::new_pull();
    match s.step(begin("main", false)) {
        Action::FastForward { branch } => assert_eq!(branch, "main"),
        _ => panic!("step (a): fast-forward expected"),
    }
    match s.step(Event::OpOk) {
        Action::CreateBackup { name } => assert_eq!(name, backup),
        _ => panic!("step (b): backup creation expected"),
    }
    match s.step(Event::OpOk) {
        Action::MirrorToRepo => {}
        _ => panic!("step (c): mirroring expected"),
    }
    match s.step(Event::Mirrored { index_dirty: true }) {
        Action::Commit { message } => assert_eq!(message, STAMP_STR),
        _ => panic!("step (c): commit expected"),
    }
    match s.step(Event::OpOk) {
        Action::PushBackup { name } => assert_eq!(name, backup),
        _ => panic!("step (d): backup push expected"),
    }
    match s.step(Event::OpOk) {
        Action::Restore { branch } => assert_eq!(branch, "main"),
        _ => panic!("step (e): restore expected"),
    }
    match s.step(Event::OpOk) {
        Action::MirrorToHost => {}
        _ => panic!("step (g): copy back expected, backup retained"),
    }
    match s.step(Event::OpOk) {
        Action::Finish => {}
        _ => panic!("finish expected"),
    }
    assert_eq!(s.phase(), Phase::Done);
}

#[test]
fn push_commits_then_pulls_then_pushes() {
    let backup = format!("_backup_main_{}", STAMP_STR);
    let mut s = Session::new_push();
    match s.step(begin("main", false)) {
        Action::MirrorToRepo => {}
        _ => panic!("push starts by mirroring in"),
    }
    match s.step(Event::Mirrored { index_dirty: true }) {
        Action::Commit { message } => assert_eq!(message, STAMP_STR),
        _ => panic!("the local changes are committed on the current branch"),
    }
    match s.step(Event::OpOk) {
        Action::FastForward { branch } => assert_eq!(branch, "main"),
        _ => panic!("then the pull protocol begins"),
    }
    match s.step(Event::OpOk) {
        Action::CreateBackup { name } => assert_eq!(name, backup),
        _ => panic!("backup creation expected"),
    }
    match s.step(Event::OpOk) {
        Action::MirrorToRepo => {}
        _ => panic!("second mirror expected"),
    }
    match s.step(Event::Mirrored { index_dirty: false }) {
        Action::Restore { branch } => assert_eq!(branch, "main"),
        _ => panic!("nothing new after the commit: restore expected"),
    }
    match s.step(Event::OpOk) {
        Action::DeleteBackup { name } => assert_eq!(name, backup),
        _ => panic!("the empty backup is deleted"),
    }
    match s.step(Event::OpOk) {
        Action::MirrorToHost => {}
        _ => panic!("copy back expected"),
    }
    match s.step(Event::OpOk) {
        Action::PushCurrent { branch } => assert_eq!(branch, "main"),
        _ => panic!("the original branch is pushed last"),
    }
    match s.step(Event::OpOk) {
        Action::Finish => {}
        _ => panic!("finish expected"),
    }
    assert_eq!(s.phase(), Phase::Done);
}

#[test]
fn a_session_always_ends_within_thirteen_steps() {
    for mode in 0..2 {
        for first_dirty in [false, true] {
            let mut s = if mode == 0 { Session::new_pull() } else { Session::new_push() };
            let mut steps: u32 = 0;
            let mut event = begin("main", false);
            loop {
                if !s.accepts(&event) {
                    event = if s.accepts(&Event::OpOk) {
                        Event::OpOk
                    } else if s.accepts(&Event::Mirrored { index_dirty: first_dirty }) {
                        Event::Mirrored { index_dirty: first_dirty }
                    } else {
                        break;
                    };
                }
                s.step(event);
                steps += 1;
                assert!(steps <= 13, "the protocol must terminate");
                event = Event::OpOk;
            }
            assert_eq!(s.phase(), Phase::Done);
        }
    }
}

#[test]
fn a_fresh_session_accepts_only_a_valid_opening() {
    let s = Session::new_pull();
    assert!(s.accepts(&begin("main", false)));
    assert!(!s.accepts(&Event::OpOk));
    assert!(!s.accepts(&Event::Diverged));
    let bad_stamp = Timestamp { year: 2024, month: 0, day: 1, hour: 0, minute: 0, second: 0, micros: 0 };
    assert!(!s.accepts(&Event::Begin { branch: "main".to_string(), dirty: false, stamp: bad_stamp }));
}
