//! Branch resolution and the fast-forward rule.
//!
//! A branch name is resolved against the local branches first and then
//! against each remote's namespace in declaration order. A pull advances a
//! branch only when the merge base shows the upstream strictly ahead;
//! divergence is refused, never merged.

use vstd::prelude::*;
use vstd::string::StringExecFns;
use crate::error::Error;
use crate::error::ErrorKind;

verus! {

/// `<remote>/<name>`: a branch name inside a remote's namespace.
pub open spec fn qualified(remote: Seq<char>, name: Seq<char>) -> Seq<char> {
    remote + seq!['/'] + name
}

/// Whether `branches` holds `name`.
pub open spec fn contains_name(branches: Seq<Seq<char>>, name: Seq<char>) -> bool {
    exists|i: int| 0 <= i < branches.len() && branches[i] == name
}

/// The first remote, in declaration order, whose namespace holds `name`,
/// as the qualified branch name.
pub open spec fn resolve_remote(
    branches: Seq<Seq<char>>,
    remotes: Seq<Seq<char>>,
    name: Seq<char>,
) -> Option<Seq<char>>
    decreases remotes.len(),
{
    if remotes.len() == 0 {
        None
    } else if contains_name(branches, qualified(remotes[0], name)) {
        Some(qualified(remotes[0], name))
    } else {
        resolve_remote(branches, remotes.skip(1), name)
    }
}

/// The resolved branch: the local name when present, else the first remote
/// match, with a flag saying a remote branch was taken.
pub open spec fn resolve_spec(
    branches: Seq<Seq<char>>,
    remotes: Seq<Seq<char>>,
    name: Seq<char>,
) -> Option<(Seq<char>, bool)> {
    if contains_name(branches, name) {
        Some((name, false))
    } else {
        match resolve_remote(branches, remotes, name) {
            Some(q) => Some((q, true)),
            None => None,
        }
    }
}

/// The diagnostic line for a name no branch matches.
pub open spec fn not_found_message(name: Seq<char>) -> Seq<char> {
    "can not locate remote or local branch '"@ + name + "'"@
}

/// A resolved branch. When `remote` holds, the name is qualified with the
/// remote and checking the branch out first creates a local branch of the
/// plain name at the same commit.
#[derive(Debug)]
pub struct FoundBranch {
    pub name: String,
    pub remote: bool,
}

fn contains(branches: &Vec<String>, name: &String) -> (r: bool)
    ensures
        r == contains_name(branches.deep_view(), name@),
{
    let mut i: usize = 0;
    while i < branches.len()
        invariant
            i <= branches@.len(),
            forall|j: int| 0 <= j < i ==> branches.deep_view()[j] != name@,
        decreases branches@.len() - i,
    {
        if branches[i] == *name {
            proof {
                assert(branches.deep_view()[i as int] == name@);
            }
            return true;
        }
        i = i + 1;
    }
    false
}

/// Resolves a branch name: the local branches first, then each remote's
/// namespace in declaration order, the first match winning.
pub fn find_branch(branch_name: &str, branches: &Vec<String>, remotes: &Vec<String>) -> (r: Result<
    FoundBranch,
    Error,
>)
    ensures
        (match resolve_spec(branches.deep_view(), remotes.deep_view(), branch_name@) {
            Some(found) => r matches Ok(f) && f.name@ == found.0 && f.remote == found.1,
            None => r matches Err(e) && e@.kind == ErrorKind::BranchNotFound && e@.message
                == not_found_message(branch_name@),
        }),
{
    let plain = String::from_str(branch_name);
    if contains(branches, &plain) {
        return Ok(FoundBranch { name: plain, remote: false });
    }
    let ghost all_remotes: Seq<Seq<char>> = remotes.deep_view();
    let mut i: usize = 0;
    proof {
        assert(all_remotes.skip(0) =~= all_remotes);
    }
    while i < remotes.len()
        invariant
            i <= remotes@.len(),
            all_remotes == remotes.deep_view(),
            !contains_name(branches.deep_view(), branch_name@),
            resolve_remote(branches.deep_view(), all_remotes, branch_name@) == resolve_remote(
                branches.deep_view(),
                all_remotes.skip(i as int),
                branch_name@,
            ),
        decreases remotes@.len() - i,
    {
        let mut q = remotes[i].clone();
        q.append("/");
        q.append(branch_name);
        proof {
            reveal_strlit("/");
            assert(q@ =~= qualified(all_remotes[i as int], branch_name@));
            assert(all_remotes.skip(i as int)[0] == all_remotes[i as int]);
        }
        if contains(branches, &q) {
            proof {
                assert(resolve_remote(
                    branches.deep_view(),
                    all_remotes.skip(i as int),
                    branch_name@,
                ) == Some(q@));
            }
            return Ok(FoundBranch { name: q, remote: true });
        }
        proof {
            assert(all_remotes.skip(i as int).skip(1) =~= all_remotes.skip(i as int + 1));
        }
        i = i + 1;
    }
    proof {
        assert(all_remotes.skip(i as int) =~= Seq::<Seq<char>>::empty());
    }
    let mut m = String::from_str("can not locate remote or local branch '");
    m.append(branch_name);
    m.append("'");
    proof {
        reveal_strlit("can not locate remote or local branch '");
        reveal_strlit("'");
        assert(m@ =~= not_found_message(branch_name@));
    }
    Err(Error::new(ErrorKind::BranchNotFound, m))
}

/// What a fast-forward pull does, given the local tip, the upstream tip,
/// and their merge base.
#[derive(Clone, Copy, PartialEq, Eq, Structural, Debug)]
pub enum FastForward {
    /// The local branch is ahead of or equal to upstream: nothing to do.
    UpToDate,
    /// The upstream is strictly ahead: move the branch reference to the
    /// upstream tip and update the working tree.
    Advance,
    /// The histories have diverged: refuse, nothing is moved.
    Diverged,
}

/// The fast-forward rule over commit identifiers.
pub open spec fn fast_forward_spec(local: Seq<char>, upstream: Seq<char>, base: Seq<char>) -> FastForward {
    if base == upstream {
        FastForward::UpToDate
    } else if base != local {
        FastForward::Diverged
    } else {
        FastForward::Advance
    }
}

/// Decides a fast-forward pull from the two tips and their merge base.
pub fn fast_forward_decision(local: &String, upstream: &String, base: &String) -> (r: FastForward)
    ensures
        r == fast_forward_spec(local@, upstream@, base@),
{
    if *base == *upstream {
        FastForward::UpToDate
    } else if !(*base == *local) {
        FastForward::Diverged
    } else {
        FastForward::Advance
    }
}

/// When the upstream and local tips are equal — the merge base is then that
/// same commit — a fast-forward pull does nothing: the branch reference and
/// the working tree stay as they are.
pub proof fn lemma_equal_tips_no_op(local: Seq<char>, upstream: Seq<char>, base: Seq<char>)
    requires
        upstream == local,
        base == local,
    ensures
        fast_forward_spec(local, upstream, base) == FastForward::UpToDate,
{
}

/// When the histories have diverged — the merge base is neither tip, so
/// neither is an ancestor of the other — a fast-forward pull is refused and
/// the branch reference is left unchanged; `Diverged` carries no movement.
pub proof fn lemma_diverged_refused(local: Seq<char>, upstream: Seq<char>, base: Seq<char>)
    requires
        base != local,
        base != upstream,
    ensures
        fast_forward_spec(local, upstream, base) == FastForward::Diverged,
{
}

} // verus!
