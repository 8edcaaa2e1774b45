//! The preconditions every pull and push checks first.
//!
//! A run refuses to start from a backup branch and refuses a dirty working
//! tree; both are "stop and let a human fix it" conditions.

use vstd::prelude::*;
use vstd::string::StringExecFns;
use crate::backup::is_backup;
use crate::backup::is_backup_spec;
use crate::error::Error;
use crate::error::ErrorKind;

verus! {

/// The diagnostic line for a run started from a backup branch.
pub open spec fn backup_branch_message(branch: Seq<char>) -> Seq<char> {
    "can not pull or push from backup branch: '"@ + branch + "'."@
}

/// The diagnostic line for a run started on a dirty repository.
pub open spec fn dirty_message() -> Seq<char> {
    "can not pull or push if repository is dirty"@
}

/// Accepts a branch to operate from; a backup branch is refused.
pub fn branch(branch_name: &str) -> (r: Result<(), Error>)
    ensures
        r is Ok <==> !is_backup_spec(branch_name@),
        r matches Err(e) ==> e@.kind == ErrorKind::OnBackupBranch && e@.message
            == backup_branch_message(branch_name@),
{
    if is_backup(branch_name) {
        let mut m = String::from_str("can not pull or push from backup branch: '");
        m.append(branch_name);
        m.append("'.");
        Err(Error::new(ErrorKind::OnBackupBranch, m))
    } else {
        Ok(())
    }
}

/// Accepts a repository state to operate on; a dirty working tree is refused.
pub fn repository(dirty: bool) -> (r: Result<(), Error>)
    ensures
        r is Ok <==> !dirty,
        r matches Err(e) ==> e@.kind == ErrorKind::RepositoryDirty && e@.message
            == dirty_message(),
{
    if dirty {
        let m = String::from_str("can not pull or push if repository is dirty");
        Err(Error::new(ErrorKind::RepositoryDirty, m))
    } else {
        Ok(())
    }
}

} // verus!
