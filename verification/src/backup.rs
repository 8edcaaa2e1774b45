//! Backup-branch names.
//!
//! A pull captures the local edits on a disposable branch named
//! `_backup_<branch>_<timestamp>`; that prefix is also the boundary that
//! pull and push refuse to operate from.

use vstd::prelude::*;
use vstd::string::StrSliceExecFns;
use vstd::string::StringExecFns;
use crate::time::Timestamp;
use crate::time::now;

verus! {

/// The eight characters every backup-branch name starts with.
pub open spec fn backup_prefix() -> Seq<char> {
    seq!['_', 'b', 'a', 'c', 'k', 'u', 'p', '_']
}

/// Whether `s` names a backup branch: it starts with `_backup_`.
pub open spec fn is_backup_spec(s: Seq<char>) -> bool {
    s.len() >= 8 && s.subrange(0, 8) == backup_prefix()
}

/// The name of the backup branch derived from `branch` at time `t`.
pub open spec fn backup_name_spec(branch: Seq<char>, t: Timestamp) -> Seq<char> {
    backup_prefix() + branch + seq!['_'] + t.spec_format()
}

/// Decides whether a branch name is a backup-branch name.
pub fn is_backup(branch_name: &str) -> (r: bool)
    ensures
        r == is_backup_spec(branch_name@),
{
    let n: usize = branch_name.unicode_len();
    if n < 8 {
        return false;
    }
    let r = branch_name.get_char(0) == '_' && branch_name.get_char(1) == 'b'
        && branch_name.get_char(2) == 'a' && branch_name.get_char(3) == 'c'
        && branch_name.get_char(4) == 'k' && branch_name.get_char(5) == 'u'
        && branch_name.get_char(6) == 'p' && branch_name.get_char(7) == '_';
    proof {
        let s = branch_name@;
        if r {
            assert(s.subrange(0, 8) =~= backup_prefix());
        } else {
            if s.subrange(0, 8) == backup_prefix() {
                assert(s[0] == '_' && s[1] == 'b' && s[2] == 'a' && s[3] == 'c' && s[4] == 'k'
                    && s[5] == 'u' && s[6] == 'p' && s[7] == '_') by {
                    assert(forall|i: int|
                        0 <= i < 8 ==> s.subrange(0, 8)[i] == #[trigger] s[i]);
                }
            }
        }
    }
    r
}

/// The backup-branch name for `from_branch_name` at the given time.
pub fn backup_branch_name_at(from_branch_name: &str, at: &Timestamp) -> (r: String)
    requires
        at.wf(),
    ensures
        r@ == backup_name_spec(from_branch_name@, *at),
{
    let mut s = String::from_str("_backup_");
    s.append(from_branch_name);
    s.append("_");
    s.append(at.format().as_str());
    proof {
        reveal_strlit("_backup_");
        reveal_strlit("_");
        assert(s@ =~= backup_name_spec(from_branch_name@, *at));
    }
    s
}

/// The backup-branch name for `from_branch_name` at the current time.
pub fn backup_branch_name(from_branch_name: &str) -> (r: String)
    ensures
        exists|t: Timestamp| t.wf() && r@ == backup_name_spec(from_branch_name@, t),
        is_backup_spec(r@),
{
    let t = now();
    let r = backup_branch_name_at(from_branch_name, &t);
    proof {
        assert(t.wf() && r@ == backup_name_spec(from_branch_name@, t));
        lemma_backup_name_is_backup(from_branch_name@, t);
    }
    r
}

/// Every derived backup-branch name is recognized as a backup branch.
pub proof fn lemma_backup_name_is_backup(branch: Seq<char>, t: Timestamp)
    ensures
        is_backup_spec(backup_name_spec(branch, t)),
{
    let s = backup_name_spec(branch, t);
    assert(s.subrange(0, 8) =~= backup_prefix());
}

} // verus!
