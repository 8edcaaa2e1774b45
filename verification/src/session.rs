//! The synchronization protocol as an explicit state machine.
//!
//! A `Session` drives one pull or push. The driver reports what happened as
//! an `Event`; the machine answers with the next `Action` to perform. All
//! ordering decisions — validation first, fast-forward before the backup
//! branch, commit before the backup push, restore before delete, the final
//! copy back — are taken here and verified; the driver only executes.

use vstd::prelude::*;
use vstd::string::StringExecFns;
use crate::backup::backup_branch_name_at;
use crate::backup::backup_name_spec;
use crate::backup::is_backup;
use crate::backup::is_backup_spec;
use crate::backup::lemma_backup_name_is_backup;
use crate::error::Error;
use crate::error::ErrorKind;
use crate::error::ErrorV;
use crate::time::Timestamp;
use crate::validate::backup_branch_message;
use crate::validate::dirty_message;

verus! {

/// Which protocol a session runs.
#[derive(Clone, Copy, PartialEq, Eq, Structural, Debug)]
pub enum Mode {
    /// Fast-forward from upstream, backing local edits up first.
    Pull,
    /// Commit local changes, run the pull protocol, then push.
    Push,
}

/// Where in the protocol a session stands.
#[derive(Clone, Copy, PartialEq, Eq, Structural, Debug)]
pub enum Phase {
    /// Nothing has happened yet; the opening report is awaited.
    Idle,
    /// Push only: local files are being mirrored in before the commit.
    PreMirroring,
    /// Push only: local changes are being committed on the current branch.
    PreCommitting,
    /// The current branch is being fast-forwarded from its upstream.
    FastForwarding,
    /// The backup branch is being created and checked out.
    CreatingBackup,
    /// Local files are being mirrored into the working copy and staged.
    Mirroring,
    /// The captured local state is being committed on the backup branch.
    Committing,
    /// The backup branch is being pushed as a new remote branch.
    PushingBackup,
    /// The original branch is being checked out again.
    Restoring,
    /// The empty backup branch is being deleted.
    DeletingBackup,
    /// The synchronized files are being copied back onto the host.
    CopyingBack,
    /// Push only: the original branch is being pushed to its upstream.
    PushingCurrent,
    /// The protocol completed.
    Done,
    /// The protocol aborted; nothing more will be asked.
    Failed,
}

/// What the driver reports back to the machine.
pub enum Event {
    /// The opening report: the current branch, whether the working tree or
    /// index is dirty, and the clock reading the session works with.
    Begin { branch: String, dirty: bool, stamp: Timestamp },
    /// The requested action completed.
    OpOk,
    /// Mirroring and staging completed; says whether the index now differs
    /// from HEAD.
    Mirrored { index_dirty: bool },
    /// The fast-forward was refused: local history has diverged.
    Diverged,
    /// The requested action failed, classified and described by the driver.
    OpFailed { kind: ErrorKind, message: String },
}

/// The mathematical content of an `Event`.
pub enum EventV {
    Begin { branch: Seq<char>, dirty: bool, stamp: Timestamp },
    OpOk,
    Mirrored { index_dirty: bool },
    Diverged,
    OpFailed { kind: ErrorKind, message: Seq<char> },
}

impl View for Event {
    type V = EventV;

    open spec fn view(&self) -> EventV {
        match self {
            Event::Begin { branch, dirty, stamp } => EventV::Begin {
                branch: branch@,
                dirty: *dirty,
                stamp: *stamp,
            },
            Event::OpOk => EventV::OpOk,
            Event::Mirrored { index_dirty } => EventV::Mirrored { index_dirty: *index_dirty },
            Event::Diverged => EventV::Diverged,
            Event::OpFailed { kind, message } => EventV::OpFailed {
                kind: *kind,
                message: message@,
            },
        }
    }
}

/// What the machine asks the driver to do next.
pub enum Action {
    /// Fetch every remote, then fast-forward the named branch from its
    /// upstream; report `Diverged` if the histories have diverged.
    FastForward { branch: String },
    /// Create the named branch at HEAD and switch to it.
    CreateBackup { name: String },
    /// Copy every configured path into the working copy, stage each copied
    /// file, and report whether the index is now dirty.
    MirrorToRepo,
    /// Commit the staged files with the given message.
    Commit { message: String },
    /// Push the named branch as a new remote branch with upstream tracking.
    PushBackup { name: String },
    /// Check out the named branch.
    Restore { branch: String },
    /// Delete the named local branch.
    DeleteBackup { name: String },
    /// Copy every configured path from the working copy back onto the host.
    MirrorToHost,
    /// Push the named branch to its upstream on every remote.
    PushCurrent { branch: String },
    /// The protocol completed; nothing more to do.
    Finish,
    /// The protocol aborted with this error; nothing more to do.
    Abort { error: Error },
}

/// The mathematical content of an `Action`.
pub enum ActionV {
    FastForward { branch: Seq<char> },
    CreateBackup { name: Seq<char> },
    MirrorToRepo,
    Commit { message: Seq<char> },
    PushBackup { name: Seq<char> },
    Restore { branch: Seq<char> },
    DeleteBackup { name: Seq<char> },
    MirrorToHost,
    PushCurrent { branch: Seq<char> },
    Finish,
    Abort { error: ErrorV },
}

impl View for Action {
    type V = ActionV;

    open spec fn view(&self) -> ActionV {
        match self {
            Action::FastForward { branch } => ActionV::FastForward { branch: branch@ },
            Action::CreateBackup { name } => ActionV::CreateBackup { name: name@ },
            Action::MirrorToRepo => ActionV::MirrorToRepo,
            Action::Commit { message } => ActionV::Commit { message: message@ },
            Action::PushBackup { name } => ActionV::PushBackup { name: name@ },
            Action::Restore { branch } => ActionV::Restore { branch: branch@ },
            Action::DeleteBackup { name } => ActionV::DeleteBackup { name: name@ },
            Action::MirrorToHost => ActionV::MirrorToHost,
            Action::PushCurrent { branch } => ActionV::PushCurrent { branch: branch@ },
            Action::Finish => ActionV::Finish,
            Action::Abort { error } => ActionV::Abort { error: error@ },
        }
    }
}

/// The mathematical content of a `Session`.
pub struct SessionV {
    pub mode: Mode,
    pub phase: Phase,
    pub original: Seq<char>,
    pub backup: Seq<char>,
    pub message: Seq<char>,
    pub committed: bool,
}

/// The diagnostic line for a refused fast-forward.
pub open spec fn not_fast_forward_message(branch: Seq<char>) -> Seq<char> {
    "can not fast forward branch: "@ + branch + ", fix this manually"@
}

/// The state a session starts in.
pub open spec fn init_spec(mode: Mode) -> SessionV {
    SessionV {
        mode,
        phase: Phase::Idle,
        original: Seq::empty(),
        backup: Seq::empty(),
        message: Seq::empty(),
        committed: false,
    }
}

/// The phases in which a plain completion report is awaited.
pub open spec fn op_phase(p: Phase) -> bool {
    ||| p == Phase::PreCommitting
    ||| p == Phase::FastForwarding
    ||| p == Phase::CreatingBackup
    ||| p == Phase::Committing
    ||| p == Phase::PushingBackup
    ||| p == Phase::Restoring
    ||| p == Phase::DeletingBackup
    ||| p == Phase::CopyingBack
    ||| p == Phase::PushingCurrent
}

/// Whether a phase is terminal: the session accepts nothing more.
pub open spec fn terminal(p: Phase) -> bool {
    p == Phase::Done || p == Phase::Failed
}

/// Which event a session in state `s` is prepared to take next.
pub open spec fn accepts_spec(s: SessionV, ev: EventV) -> bool {
    match ev {
        EventV::Begin { stamp, .. } => s.phase == Phase::Idle && stamp.wf(),
        EventV::OpOk => op_phase(s.phase),
        EventV::Mirrored { .. } => s.phase == Phase::Mirroring || s.phase
            == Phase::PreMirroring,
        EventV::Diverged => s.phase == Phase::FastForwarding,
        EventV::OpFailed { .. } => s.phase != Phase::Idle && !terminal(s.phase),
    }
}

/// `s` with its phase set to `Failed`.
pub open spec fn failed(s: SessionV) -> SessionV {
    SessionV { phase: Phase::Failed, ..s }
}

/// The transition function of the protocol: from a state and the driver's
/// report to the next state and the next action.
pub open spec fn step_spec(s: SessionV, ev: EventV) -> (SessionV, ActionV) {
    match ev {
        EventV::Begin { branch, dirty, stamp } => {
            if dirty {
                (
                    failed(s),
                    ActionV::Abort {
                        error: ErrorV { kind: ErrorKind::RepositoryDirty, message: dirty_message() },
                    },
                )
            } else if is_backup_spec(branch) {
                (
                    failed(s),
                    ActionV::Abort {
                        error: ErrorV {
                            kind: ErrorKind::OnBackupBranch,
                            message: backup_branch_message(branch),
                        },
                    },
                )
            } else {
                let s1 = SessionV {
                    original: branch,
                    backup: backup_name_spec(branch, stamp),
                    message: stamp.spec_format(),
                    committed: false,
                    ..s
                };
                if s.mode == Mode::Pull {
                    (
                        SessionV { phase: Phase::FastForwarding, ..s1 },
                        ActionV::FastForward { branch },
                    )
                } else {
                    (SessionV { phase: Phase::PreMirroring, ..s1 }, ActionV::MirrorToRepo)
                }
            }
        },
        EventV::OpFailed { kind, message } => (
            failed(s),
            ActionV::Abort { error: ErrorV { kind, message } },
        ),
        EventV::Diverged => (
            failed(s),
            ActionV::Abort {
                error: ErrorV {
                    kind: ErrorKind::NotFastForward,
                    message: not_fast_forward_message(s.original),
                },
            },
        ),
        EventV::Mirrored { index_dirty } => {
            if s.phase == Phase::PreMirroring {
                if index_dirty {
                    (
                        SessionV { phase: Phase::PreCommitting, ..s },
                        ActionV::Commit { message: s.message },
                    )
                } else {
                    (
                        SessionV { phase: Phase::FastForwarding, ..s },
                        ActionV::FastForward { branch: s.original },
                    )
                }
            } else {
                if index_dirty {
                    (
                        SessionV { phase: Phase::Committing, committed: true, ..s },
                        ActionV::Commit { message: s.message },
                    )
                } else {
                    (
                        SessionV { phase: Phase::Restoring, committed: false, ..s },
                        ActionV::Restore { branch: s.original },
                    )
                }
            }
        },
        EventV::OpOk => {
            match s.phase {
                Phase::PreCommitting => (
                    SessionV { phase: Phase::FastForwarding, ..s },
                    ActionV::FastForward { branch: s.original },
                ),
                Phase::FastForwarding => (
                    SessionV { phase: Phase::CreatingBackup, ..s },
                    ActionV::CreateBackup { name: s.backup },
                ),
                Phase::CreatingBackup => (
                    SessionV { phase: Phase::Mirroring, ..s },
                    ActionV::MirrorToRepo,
                ),
                Phase::Committing => (
                    SessionV { phase: Phase::PushingBackup, ..s },
                    ActionV::PushBackup { name: s.backup },
                ),
                Phase::PushingBackup => (
                    SessionV { phase: Phase::Restoring, ..s },
                    ActionV::Restore { branch: s.original },
                ),
                Phase::Restoring => if s.committed {
                    (SessionV { phase: Phase::CopyingBack, ..s }, ActionV::MirrorToHost)
                } else {
                    (
                        SessionV { phase: Phase::DeletingBackup, ..s },
                        ActionV::DeleteBackup { name: s.backup },
                    )
                },
                Phase::DeletingBackup => (
                    SessionV { phase: Phase::CopyingBack, ..s },
                    ActionV::MirrorToHost,
                ),
                Phase::CopyingBack => if s.mode == Mode::Pull {
                    (SessionV { phase: Phase::Done, ..s }, ActionV::Finish)
                } else {
                    (
                        SessionV { phase: Phase::PushingCurrent, ..s },
                        ActionV::PushCurrent { branch: s.original },
                    )
                },
                Phase::PushingCurrent => (SessionV { phase: Phase::Done, ..s }, ActionV::Finish),
                _ => (s, ActionV::Finish),
            }
        },
    }
}

/// The naming invariant of a running session: the session never works on a
/// backup branch, and from validation to completion the backup name is the
/// one derived from the original branch and the session's clock reading —
/// so at most one backup branch is ever live, and it is always recognizable
/// as one.
pub open spec fn wf(s: SessionV) -> bool {
    (s.phase != Phase::Idle && !terminal(s.phase)) ==> {
        &&& !is_backup_spec(s.original)
        &&& is_backup_spec(s.backup)
        &&& exists|t: Timestamp|
            t.wf() && s.backup == backup_name_spec(s.original, t) && s.message == t.spec_format()
    }
}

/// Every accepted step preserves the naming invariant.
pub proof fn lemma_step_preserves_wf(s: SessionV, ev: EventV)
    requires
        wf(s),
        accepts_spec(s, ev),
    ensures
        wf(step_spec(s, ev).0),
{
    match ev {
        EventV::Begin { branch, dirty, stamp } => {
            if !dirty && !is_backup_spec(branch) {
                lemma_backup_name_is_backup(branch, stamp);
                let s1 = step_spec(s, ev).0;
                assert(stamp.wf() && s1.backup == backup_name_spec(s1.original, stamp)
                    && s1.message == stamp.spec_format());
            }
        },
        _ => {},
    }
}

/// Whether a sequence of reports is one the machine is prepared to take,
/// step by step, from state `s`.
pub open spec fn accepted_trace(s: SessionV, evs: Seq<EventV>) -> bool
    decreases evs.len(),
{
    evs.len() == 0 || (accepts_spec(s, evs[0]) && accepted_trace(
        step_spec(s, evs[0]).0,
        evs.skip(1),
    ))
}

/// The state and the emitted actions after taking every report in `evs`.
pub open spec fn run_spec(s: SessionV, evs: Seq<EventV>) -> (SessionV, Seq<ActionV>)
    decreases evs.len(),
{
    if evs.len() == 0 {
        (s, Seq::empty())
    } else {
        let first = step_spec(s, evs[0]);
        let rest = run_spec(first.0, evs.skip(1));
        (rest.0, seq![first.1] + rest.1)
    }
}

/// An action only ever touches branches on the right side of the naming
/// boundary: branches it creates, pushes as new, or deletes are marked as
/// backups; branches it fast-forwards, restores, or pushes upstream are
/// not.
pub open spec fn action_safe(a: ActionV) -> bool {
    match a {
        ActionV::CreateBackup { name } => is_backup_spec(name),
        ActionV::PushBackup { name } => is_backup_spec(name),
        ActionV::DeleteBackup { name } => is_backup_spec(name),
        ActionV::FastForward { branch } => !is_backup_spec(branch),
        ActionV::Restore { branch } => !is_backup_spec(branch),
        ActionV::PushCurrent { branch } => !is_backup_spec(branch),
        _ => true,
    }
}

/// Every single accepted step emits a safe action.
pub proof fn lemma_step_action_safe(s: SessionV, ev: EventV)
    requires
        wf(s),
        accepts_spec(s, ev),
    ensures
        action_safe(step_spec(s, ev).1),
{
    match ev {
        EventV::Begin { branch, dirty, stamp } => {
            if !dirty && !is_backup_spec(branch) {
                lemma_backup_name_is_backup(branch, stamp);
            }
        },
        _ => {},
    }
}

/// Along any accepted run of the machine, every branch it asks to create,
/// push as new, or delete is marked as a backup, and every branch it asks
/// to fast-forward, restore, or push upstream is not — whatever the driver
/// reports, a backup branch never stands in for the original branch nor
/// the other way round.
pub proof fn lemma_run_respects_the_naming_boundary(s: SessionV, evs: Seq<EventV>)
    requires
        wf(s),
        accepted_trace(s, evs),
    ensures
        run_spec(s, evs).1.len() == evs.len(),
        forall|k: int| 0 <= k < evs.len() ==> action_safe(#[trigger] run_spec(s, evs).1[k]),
    decreases evs.len(),
{
    if evs.len() > 0 {
        let stepped = step_spec(s, evs[0]);
        lemma_step_action_safe(s, evs[0]);
        lemma_step_preserves_wf(s, evs[0]);
        lemma_run_respects_the_naming_boundary(stepped.0, evs.skip(1));
        let rest = run_spec(stepped.0, evs.skip(1));
        assert forall|k: int| 0 <= k < evs.len() implies action_safe(
            #[trigger] run_spec(s, evs).1[k],
        ) by {
            if k == 0 {
                assert(run_spec(s, evs).1[0] == stepped.1);
            } else {
                assert(run_spec(s, evs).1[k] == rest.1[k - 1]);
            }
        }
    }
}

/// A run emits exactly one action per report taken.
pub proof fn lemma_run_length(s: SessionV, evs: Seq<EventV>)
    ensures
        run_spec(s, evs).1.len() == evs.len(),
    decreases evs.len(),
{
    if evs.len() > 0 {
        lemma_run_length(step_spec(s, evs[0]).0, evs.skip(1));
    }
}

/// Backup creation is handed out only while fast-forwarding; a machine
/// that has moved past that phase never asks for another backup branch.
pub proof fn lemma_no_backup_creation_past_fast_forward(s: SessionV, evs: Seq<EventV>)
    requires
        accepted_trace(s, evs),
        phase_rank(s.phase) > phase_rank(Phase::FastForwarding),
    ensures
        forall|k: int|
            0 <= k < run_spec(s, evs).1.len() ==> !(#[trigger] run_spec(s, evs).1[k] matches
            ActionV::CreateBackup { .. }),
    decreases evs.len(),
{
    if evs.len() > 0 {
        let stepped = step_spec(s, evs[0]);
        lemma_step_makes_progress(s, evs[0]);
        lemma_no_backup_creation_past_fast_forward(stepped.0, evs.skip(1));
        lemma_run_length(stepped.0, evs.skip(1));
        let rest = run_spec(stepped.0, evs.skip(1));
        assert forall|k: int|
            0 <= k < run_spec(s, evs).1.len() implies !(#[trigger] run_spec(s, evs).1[k] matches
        ActionV::CreateBackup { .. }) by {
            if k == 0 {
                assert(run_spec(s, evs).1[0] == stepped.1);
            } else {
                assert(run_spec(s, evs).1[k] == rest.1[k - 1]);
            }
        }
    }
}

/// One session creates at most one backup branch: whatever the driver
/// reports, no accepted run asks to create a backup branch twice — so at
/// most one backup is ever live per synchronization.
pub proof fn lemma_at_most_one_backup_creation(s: SessionV, evs: Seq<EventV>, k1: int, k2: int)
    requires
        accepted_trace(s, evs),
        0 <= k1 < k2 < evs.len(),
        run_spec(s, evs).1[k1] matches ActionV::CreateBackup { .. },
    ensures
        !(run_spec(s, evs).1[k2] matches ActionV::CreateBackup { .. }),
    decreases evs.len(),
{
    let stepped = step_spec(s, evs[0]);
    lemma_run_length(stepped.0, evs.skip(1));
    let rest = run_spec(stepped.0, evs.skip(1));
    assert(run_spec(s, evs).1[k2] == rest.1[k2 - 1]);
    if k1 == 0 {
        assert(run_spec(s, evs).1[0] == stepped.1);
        assert(s.phase == Phase::FastForwarding);
        lemma_step_makes_progress(s, evs[0]);
        lemma_no_backup_creation_past_fast_forward(stepped.0, evs.skip(1));
    } else {
        assert(run_spec(s, evs).1[k1] == rest.1[k1 - 1]);
        lemma_at_most_one_backup_creation(stepped.0, evs.skip(1), k1 - 1, k2 - 1);
    }
}

/// How far along the protocol a phase stands; terminal phases rank
/// highest.
pub open spec fn phase_rank(p: Phase) -> nat {
    match p {
        Phase::Idle => 0,
        Phase::PreMirroring => 1,
        Phase::PreCommitting => 2,
        Phase::FastForwarding => 3,
        Phase::CreatingBackup => 4,
        Phase::Mirroring => 5,
        Phase::Committing => 6,
        Phase::PushingBackup => 7,
        Phase::Restoring => 8,
        Phase::DeletingBackup => 9,
        Phase::CopyingBack => 10,
        Phase::PushingCurrent => 11,
        Phase::Done => 12,
        Phase::Failed => 13,
    }
}

/// Every accepted step advances the protocol: the phase rank strictly
/// increases, so no session can revisit a phase or loop.
pub proof fn lemma_step_makes_progress(s: SessionV, ev: EventV)
    requires
        accepts_spec(s, ev),
    ensures
        phase_rank(step_spec(s, ev).0.phase) > phase_rank(s.phase),
{
}

/// A session always ends: from its start a machine takes at most thirteen
/// reports before it stands in a terminal phase and accepts nothing more.
pub proof fn lemma_trace_is_bounded(s: SessionV, evs: Seq<EventV>)
    requires
        accepted_trace(s, evs),
    ensures
        evs.len() + phase_rank(s.phase) <= 13,
    decreases evs.len(),
{
    if evs.len() > 0 {
        lemma_step_makes_progress(s, evs[0]);
        lemma_trace_is_bounded(step_spec(s, evs[0]).0, evs.skip(1));
    }
}

/// A dirty repository is refused outright. Whichever protocol was asked
/// for, the opening report ends the session with `RepositoryDirty`, the one
/// action emitted is the abort, and the failed session accepts no further
/// event — so no branch, reference, or file mutation is ever requested.
pub proof fn lemma_dirty_rejected(mode: Mode, branch: Seq<char>, stamp: Timestamp)
    ensures
        ({
            let r = step_spec(init_spec(mode), EventV::Begin { branch, dirty: true, stamp });
            &&& r.0.phase == Phase::Failed
            &&& r.1 matches ActionV::Abort { error } && error.kind == ErrorKind::RepositoryDirty
            &&& forall|ev: EventV| !accepts_spec(r.0, ev)
        }),
{
}

/// A backup branch is refused as a starting point. With a clean repository
/// on any branch named `_backup_...`, the opening report ends the session
/// with `OnBackupBranch`, the one action emitted is the abort, and the
/// failed session accepts no further event. (A dirty repository on such a
/// branch reports `RepositoryDirty` instead: dirtiness is checked first.)
pub proof fn lemma_backup_branch_rejected(mode: Mode, branch: Seq<char>, stamp: Timestamp)
    requires
        is_backup_spec(branch),
    ensures
        ({
            let r = step_spec(init_spec(mode), EventV::Begin { branch, dirty: false, stamp });
            &&& r.0.phase == Phase::Failed
            &&& r.1 matches ActionV::Abort { error } && error.kind == ErrorKind::OnBackupBranch
            &&& forall|ev: EventV| !accepts_spec(r.0, ev)
        }),
{
}

/// A pull that finds nothing to commit is self-cleaning. The run creates a
/// backup branch, mirrors the local files in, finds the index clean,
/// returns to the original branch, deletes the very backup it created, and
/// copies back — ending `Done` on the original branch with no residual
/// reference. Since every such run starts from a fresh session, running
/// pull twice in a row with no local edits and no upstream change does this
/// twice over, leaving the repository each time on the original branch.
pub proof fn lemma_pull_clean_run(branch: Seq<char>, stamp: Timestamp)
    requires
        !is_backup_spec(branch),
        stamp.wf(),
    ensures
        ({
            let bname = backup_name_spec(branch, stamp);
            let (s1, a1) = step_spec(
                init_spec(Mode::Pull),
                EventV::Begin { branch, dirty: false, stamp },
            );
            let (s2, a2) = step_spec(s1, EventV::OpOk);
            let (s3, a3) = step_spec(s2, EventV::OpOk);
            let (s4, a4) = step_spec(s3, EventV::Mirrored { index_dirty: false });
            let (s5, a5) = step_spec(s4, EventV::OpOk);
            let (s6, a6) = step_spec(s5, EventV::OpOk);
            let (s7, a7) = step_spec(s6, EventV::OpOk);
            &&& a1 == (ActionV::FastForward { branch })
            &&& a2 == (ActionV::CreateBackup { name: bname })
            &&& a3 == ActionV::MirrorToRepo
            &&& a4 == (ActionV::Restore { branch })
            &&& a5 == (ActionV::DeleteBackup { name: bname })
            &&& a6 == ActionV::MirrorToHost
            &&& a7 == ActionV::Finish
            &&& s7.phase == Phase::Done
            &&& s7.original == branch
            &&& !s7.committed
        }),
{
}

/// A pull that finds local edits retains its backup. The run fast-forwards
/// the branch, creates and switches to the derived backup branch, mirrors
/// the edited files in, commits them there, pushes the backup as a new
/// remote branch, switches back to the original branch — without deleting
/// the backup — and copies the synchronized files back onto the host. The
/// local edit then lives on the backup branch alone.
pub proof fn lemma_pull_backup_run(branch: Seq<char>, stamp: Timestamp)
    requires
        !is_backup_spec(branch),
        stamp.wf(),
    ensures
        ({
            let bname = backup_name_spec(branch, stamp);
            let (s1, a1) = step_spec(
                init_spec(Mode::Pull),
                EventV::Begin { branch, dirty: false, stamp },
            );
            let (s2, a2) = step_spec(s1, EventV::OpOk);
            let (s3, a3) = step_spec(s2, EventV::OpOk);
            let (s4, a4) = step_spec(s3, EventV::Mirrored { index_dirty: true });
            let (s5, a5) = step_spec(s4, EventV::OpOk);
            let (s6, a6) = step_spec(s5, EventV::OpOk);
            let (s7, a7) = step_spec(s6, EventV::OpOk);
            let (s8, a8) = step_spec(s7, EventV::OpOk);
            &&& a1 == (ActionV::FastForward { branch })
            &&& a2 == (ActionV::CreateBackup { name: bname })
            &&& a3 == ActionV::MirrorToRepo
            &&& a4 == (ActionV::Commit { message: stamp.spec_format() })
            &&& a5 == (ActionV::PushBackup { name: bname })
            &&& a6 == (ActionV::Restore { branch })
            &&& a7 == ActionV::MirrorToHost
            &&& a8 == ActionV::Finish
            &&& s8.phase == Phase::Done
            &&& s8.original == branch
            &&& s8.committed
        }),
{
}

/// The push protocol is the pull protocol wrapped in a commit and a final
/// push. With local changes present, the run commits them on the current
/// branch, fast-forwards, applies the backup safety net on top of the
/// just-made commit — the second mirror finds nothing new, so the backup is
/// deleted again — copies back, and only then pushes the original branch.
pub proof fn lemma_push_run(branch: Seq<char>, stamp: Timestamp)
    requires
        !is_backup_spec(branch),
        stamp.wf(),
    ensures
        ({
            let bname = backup_name_spec(branch, stamp);
            let (s1, a1) = step_spec(
                init_spec(Mode::Push),
                EventV::Begin { branch, dirty: false, stamp },
            );
            let (s2, a2) = step_spec(s1, EventV::Mirrored { index_dirty: true });
            let (s3, a3) = step_spec(s2, EventV::OpOk);
            let (s4, a4) = step_spec(s3, EventV::OpOk);
            let (s5, a5) = step_spec(s4, EventV::OpOk);
            let (s6, a6) = step_spec(s5, EventV::Mirrored { index_dirty: false });
            let (s7, a7) = step_spec(s6, EventV::OpOk);
            let (s8, a8) = step_spec(s7, EventV::OpOk);
            let (s9, a9) = step_spec(s8, EventV::OpOk);
            let (s10, a10) = step_spec(s9, EventV::OpOk);
            &&& a1 == ActionV::MirrorToRepo
            &&& a2 == (ActionV::Commit { message: stamp.spec_format() })
            &&& a3 == (ActionV::FastForward { branch })
            &&& a4 == (ActionV::CreateBackup { name: bname })
            &&& a5 == ActionV::MirrorToRepo
            &&& a6 == (ActionV::Restore { branch })
            &&& a7 == (ActionV::DeleteBackup { name: bname })
            &&& a8 == ActionV::MirrorToHost
            &&& a9 == (ActionV::PushCurrent { branch })
            &&& a10 == ActionV::Finish
            &&& s10.phase == Phase::Done
        }),
{
}

/// One pull or push run, from the opening report to the final action.
pub struct Session {
    mode: Mode,
    phase: Phase,
    original: String,
    backup: String,
    message: String,
    committed: bool,
}

impl View for Session {
    type V = SessionV;

    closed spec fn view(&self) -> SessionV {
        SessionV {
            mode: self.mode,
            phase: self.phase,
            original: self.original@,
            backup: self.backup@,
            message: self.message@,
            committed: self.committed,
        }
    }
}

impl Session {
    /// A fresh pull session.
    pub fn new_pull() -> (s: Session)
        ensures
            s@ == init_spec(Mode::Pull),
    {
        Session {
            mode: Mode::Pull,
            phase: Phase::Idle,
            original: String::new(),
            backup: String::new(),
            message: String::new(),
            committed: false,
        }
    }

    /// A fresh push session.
    pub fn new_push() -> (s: Session)
        ensures
            s@ == init_spec(Mode::Push),
    {
        Session {
            mode: Mode::Push,
            phase: Phase::Idle,
            original: String::new(),
            backup: String::new(),
            message: String::new(),
            committed: false,
        }
    }

    /// The phase the session stands in.
    pub fn phase(&self) -> (r: Phase)
        ensures
            r == self@.phase,
    {
        self.phase
    }

    /// Whether the session is prepared to take `ev` next.
    pub fn accepts(&self, ev: &Event) -> (r: bool)
        ensures
            r == accepts_spec(self@, ev@),
    {
        match ev {
            Event::Begin { stamp, .. } => self.phase == Phase::Idle && stamp.valid(),
            Event::OpOk => {
                match self.phase {
                    Phase::PreCommitting => true,
                    Phase::FastForwarding => true,
                    Phase::CreatingBackup => true,
                    Phase::Committing => true,
                    Phase::PushingBackup => true,
                    Phase::Restoring => true,
                    Phase::DeletingBackup => true,
                    Phase::CopyingBack => true,
                    Phase::PushingCurrent => true,
                    _ => false,
                }
            },
            Event::Mirrored { .. } => self.phase == Phase::Mirroring || self.phase
                == Phase::PreMirroring,
            Event::Diverged => self.phase == Phase::FastForwarding,
            Event::OpFailed { .. } => self.phase != Phase::Idle && self.phase
                != Phase::Done && self.phase != Phase::Failed,
        }
    }

    /// Takes the driver's report and answers with the next action.
    pub fn step(&mut self, ev: Event) -> (a: Action)
        requires
            accepts_spec(old(self)@, ev@),
        ensures
            (final(self)@, a@) == step_spec(old(self)@, ev@),
    {
        match ev {
            Event::Begin { branch, dirty, stamp } => {
                if dirty {
                    self.phase = Phase::Failed;
                    let m = String::from_str("can not pull or push if repository is dirty");
                    Action::Abort { error: Error::new(ErrorKind::RepositoryDirty, m) }
                } else if is_backup(branch.as_str()) {
                    self.phase = Phase::Failed;
                    let mut m = String::from_str("can not pull or push from backup branch: '");
                    m.append(branch.as_str());
                    m.append("'.");
                    Action::Abort { error: Error::new(ErrorKind::OnBackupBranch, m) }
                } else {
                    self.backup = backup_branch_name_at(branch.as_str(), &stamp);
                    self.message = stamp.format();
                    self.committed = false;
                    if self.mode == Mode::Pull {
                        self.phase = Phase::FastForwarding;
                        let act = Action::FastForward { branch: branch.clone() };
                        self.original = branch;
                        act
                    } else {
                        self.phase = Phase::PreMirroring;
                        self.original = branch;
                        Action::MirrorToRepo
                    }
                }
            },
            Event::OpFailed { kind, message } => {
                self.phase = Phase::Failed;
                Action::Abort { error: Error::new(kind, message) }
            },
            Event::Diverged => {
                self.phase = Phase::Failed;
                let mut m = String::from_str("can not fast forward branch: ");
                m.append(self.original.as_str());
                m.append(", fix this manually");
                Action::Abort { error: Error::new(ErrorKind::NotFastForward, m) }
            },
            Event::Mirrored { index_dirty } => {
                if self.phase == Phase::PreMirroring {
                    if index_dirty {
                        self.phase = Phase::PreCommitting;
                        Action::Commit { message: self.message.clone() }
                    } else {
                        self.phase = Phase::FastForwarding;
                        Action::FastForward { branch: self.original.clone() }
                    }
                } else {
                    if index_dirty {
                        self.phase = Phase::Committing;
                        self.committed = true;
                        Action::Commit { message: self.message.clone() }
                    } else {
                        self.phase = Phase::Restoring;
                        self.committed = false;
                        Action::Restore { branch: self.original.clone() }
                    }
                }
            },
            Event::OpOk => {
                match self.phase {
                    Phase::PreCommitting => {
                        self.phase = Phase::FastForwarding;
                        Action::FastForward { branch: self.original.clone() }
                    },
                    Phase::FastForwarding => {
                        self.phase = Phase::CreatingBackup;
                        Action::CreateBackup { name: self.backup.clone() }
                    },
                    Phase::CreatingBackup => {
                        self.phase = Phase::Mirroring;
                        Action::MirrorToRepo
                    },
                    Phase::Committing => {
                        self.phase = Phase::PushingBackup;
                        Action::PushBackup { name: self.backup.clone() }
                    },
                    Phase::PushingBackup => {
                        self.phase = Phase::Restoring;
                        Action::Restore { branch: self.original.clone() }
                    },
                    Phase::Restoring => {
                        if self.committed {
                            self.phase = Phase::CopyingBack;
                            Action::MirrorToHost
                        } else {
                            self.phase = Phase::DeletingBackup;
                            Action::DeleteBackup { name: self.backup.clone() }
                        }
                    },
                    Phase::DeletingBackup => {
                        self.phase = Phase::CopyingBack;
                        Action::MirrorToHost
                    },
                    Phase::CopyingBack => {
                        if self.mode == Mode::Pull {
                            self.phase = Phase::Done;
                            Action::Finish
                        } else {
                            self.phase = Phase::PushingCurrent;
                            Action::PushCurrent { branch: self.original.clone() }
                        }
                    },
                    Phase::PushingCurrent => {
                        self.phase = Phase::Done;
                        Action::Finish
                    },
                    _ => Action::Finish,
                }
            },
        }
    }
}

} // verus!
