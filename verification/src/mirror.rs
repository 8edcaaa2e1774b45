//! Mirroring configured paths between the host and the working copy.
//!
//! A configured path is made relative by stripping its leading path
//! separators; the relative path is joined under the host root for the host
//! side and under the repository root for the repository side. Copying is
//! planned here over a model of the filesystem entries involved; the driver
//! walks the real directories and performs the byte copies.

use vstd::prelude::*;
use vstd::string::StrSliceExecFns;
use vstd::string::StringExecFns;
use crate::error::Error;
use crate::error::ErrorKind;

verus! {

/// `s` without its leading `'/'` separators.
pub open spec fn strip_leading(s: Seq<char>) -> Seq<char>
    decreases s.len(),
{
    if s.len() > 0 && s[0] == '/' {
        strip_leading(s.skip(1))
    } else {
        s
    }
}

/// `rel` placed under `root`, with exactly one separator between them
/// unless `root` already ends in one.
pub open spec fn join_under(root: Seq<char>, rel: Seq<char>) -> Seq<char> {
    if root.len() > 0 && root[root.len() - 1] == '/' {
        root + rel
    } else {
        root + seq!['/'] + rel
    }
}

/// Strips the leading path separators from a configured path.
pub fn mirror_relative(path: &str) -> (r: String)
    ensures
        r@ == strip_leading(path@),
{
    let n: usize = path.unicode_len();
    let mut i: usize = 0;
    proof {
        assert(path@.skip(0) =~= path@);
    }
    while i < n && path.get_char(i) == '/'
        invariant
            i <= n,
            n == path@.len(),
            strip_leading(path@) == strip_leading(path@.skip(i as int)),
        decreases n - i,
    {
        proof {
            assert(path@.skip(i as int)[0] == path@[i as int]);
            assert(path@.skip(i as int).skip(1) =~= path@.skip(i as int + 1));
        }
        i = i + 1;
    }
    let sub = path.substring_char(i, n);
    proof {
        assert(path@.skip(i as int) =~= path@.subrange(i as int, n as int));
        if i < n {
            assert(strip_leading(path@.skip(i as int)) == path@.skip(i as int));
        } else {
            assert(path@.skip(i as int) =~= Seq::<char>::empty());
        }
    }
    String::from_str(sub)
}

/// Joins a relative path under a root.
pub fn joined(root: &str, rel: &str) -> (r: String)
    ensures
        r@ == join_under(root@, rel@),
{
    let n: usize = root.unicode_len();
    let mut s = String::from_str(root);
    if n == 0 || root.get_char(n - 1) != '/' {
        s.append("/");
        proof {
            reveal_strlit("/");
            assert(s@ =~= root@ + seq!['/']);
        }
    }
    s.append(rel);
    proof {
        assert(s@ =~= join_under(root@, rel@));
    }
    s
}

/// The (host source, repository destination) pair a configured path is
/// copied along when mirroring into the repository.
pub open spec fn repo_pair_spec(host_root: Seq<char>, repo_root: Seq<char>, path: Seq<char>) -> (
    Seq<char>,
    Seq<char>,
) {
    (
        join_under(host_root, strip_leading(path)),
        join_under(repo_root, strip_leading(path)),
    )
}

/// The (repository source, host destination) pair the same configured path
/// is copied along when mirroring back onto the host.
pub open spec fn host_pair_spec(host_root: Seq<char>, repo_root: Seq<char>, path: Seq<char>) -> (
    Seq<char>,
    Seq<char>,
) {
    (
        join_under(repo_root, strip_leading(path)),
        join_under(host_root, strip_leading(path)),
    )
}

/// The copy pair of a configured path when mirroring into the repository.
pub fn to_repo_pair(host_root: &str, repo_root: &str, path: &str) -> (r: (String, String))
    ensures
        (r.0@, r.1@) == repo_pair_spec(host_root@, repo_root@, path@),
{
    let rel = mirror_relative(path);
    let source = joined(host_root, rel.as_str());
    let destination = joined(repo_root, rel.as_str());
    (source, destination)
}

/// The copy pair of the same configured path when mirroring back onto the
/// host.
pub fn to_host_pair(host_root: &str, repo_root: &str, path: &str) -> (r: (String, String))
    ensures
        (r.0@, r.1@) == host_pair_spec(host_root@, repo_root@, path@),
{
    let rel = mirror_relative(path);
    let source = joined(repo_root, rel.as_str());
    let destination = joined(host_root, rel.as_str());
    (source, destination)
}

/// Whether `p` is a prefix of `s`.
pub open spec fn has_prefix(s: Seq<char>, p: Seq<char>) -> bool {
    s.len() >= p.len() && s.subrange(0, p.len() as int) == p
}

/// Rebases a path from one root onto another: when `path` starts with
/// `from_root`, the remainder is appended to `onto_root`.
pub fn rebase(path: &str, from_root: &str, onto_root: &str) -> (r: Option<String>)
    ensures
        r is Some <==> has_prefix(path@, from_root@),
        r matches Some(s) ==> s@ == onto_root@ + path@.skip(from_root@.len() as int),
{
    let n: usize = path.unicode_len();
    let d: usize = from_root.unicode_len();
    if d > n {
        return None;
    }
    let mut i: usize = 0;
    while i < d
        invariant
            i <= d,
            d <= n,
            n == path@.len(),
            d == from_root@.len(),
            forall|j: int| 0 <= j < i ==> path@[j] == from_root@[j],
        decreases d - i,
    {
        if path.get_char(i) != from_root.get_char(i) {
            proof {
                if has_prefix(path@, from_root@) {
                    assert(path@.subrange(0, d as int)[i as int] == path@[i as int]);
                }
            }
            return None;
        }
        i = i + 1;
    }
    proof {
        assert(path@.subrange(0, d as int) =~= from_root@);
    }
    let mut out = String::from_str(onto_root);
    out.append(path.substring_char(d, n));
    proof {
        assert(path@.subrange(d as int, n as int) =~= path@.skip(d as int));
    }
    Some(out)
}

/// The copy pairs of every configured path when mirroring into the
/// repository, in configuration order.
pub fn repo_pairs(paths: &Vec<String>, host_root: &str, repo_root: &str) -> (r: Vec<
    (String, String),
>)
    ensures
        r@.len() == paths@.len(),
        forall|i: int|
            0 <= i < paths@.len() ==> (#[trigger] r@[i].0@, r@[i].1@) == repo_pair_spec(
                host_root@,
                repo_root@,
                paths.deep_view()[i],
            ),
{
    let mut r: Vec<(String, String)> = Vec::new();
    let mut i: usize = 0;
    while i < paths.len()
        invariant
            i <= paths@.len(),
            r@.len() == i,
            forall|j: int|
                0 <= j < i ==> (#[trigger] r@[j].0@, r@[j].1@) == repo_pair_spec(
                    host_root@,
                    repo_root@,
                    paths.deep_view()[j],
                ),
        decreases paths@.len() - i,
    {
        let pair = to_repo_pair(host_root, repo_root, paths[i].as_str());
        r.push(pair);
        i = i + 1;
    }
    r
}

/// The copy pairs of every configured path when mirroring back onto the
/// host, in configuration order.
pub fn host_pairs(paths: &Vec<String>, host_root: &str, repo_root: &str) -> (r: Vec<
    (String, String),
>)
    ensures
        r@.len() == paths@.len(),
        forall|i: int|
            0 <= i < paths@.len() ==> (#[trigger] r@[i].0@, r@[i].1@) == host_pair_spec(
                host_root@,
                repo_root@,
                paths.deep_view()[i],
            ),
{
    let mut r: Vec<(String, String)> = Vec::new();
    let mut i: usize = 0;
    while i < paths.len()
        invariant
            i <= paths@.len(),
            r@.len() == i,
            forall|j: int|
                0 <= j < i ==> (#[trigger] r@[j].0@, r@[j].1@) == host_pair_spec(
                    host_root@,
                    repo_root@,
                    paths.deep_view()[j],
                ),
        decreases paths@.len() - i,
    {
        let pair = to_host_pair(host_root, repo_root, paths[i].as_str());
        r.push(pair);
        i = i + 1;
    }
    r
}

/// One filesystem entry as the copy planner sees it: absent, a regular
/// file, a directory with named children, or anything else (a broken
/// symlink, a device).
pub enum FsNode {
    /// The path does not exist.
    Missing,
    /// A regular file.
    File,
    /// A directory and its named entries.
    Dir(Vec<(String, FsNode)>),
    /// Neither a regular file nor a directory.
    Special,
}

/// Why a planned copy is refused.
pub enum CopyIssue {
    /// The source is neither a regular file nor a directory.
    NotAFileOrDir { source: Seq<char> },
    /// A file is to be copied where a directory stands.
    FileOverDir { source: Seq<char>, destination: Seq<char> },
    /// A directory is to be copied where a file stands.
    DirOverFile { source: Seq<char>, destination: Seq<char> },
}

/// The diagnostic line of a refused copy.
pub open spec fn copy_issue_message(issue: CopyIssue) -> Seq<char> {
    match issue {
        CopyIssue::NotAFileOrDir { source } => "source '"@ + source
            + "' is neither a file nor dir"@,
        CopyIssue::FileOverDir { source, destination } => "source '"@ + source
            + "' is a file but destination '"@ + destination + "' is a dir"@,
        CopyIssue::DirOverFile { source, destination } => "source '"@ + source
            + "' is a dir but destination '"@ + destination + "' is a file"@,
    }
}

/// The named entries of a destination node; anything but a directory has
/// none.
pub open spec fn child_entries(n: FsNode) -> Seq<(String, FsNode)> {
    match n {
        FsNode::Dir(cs) => cs@,
        _ => Seq::empty(),
    }
}

/// The first entry called `name`, or `Missing` if there is none.
pub open spec fn lookup_child(cs: Seq<(String, FsNode)>, name: Seq<char>) -> FsNode
    decreases cs.len(),
{
    if cs.len() == 0 {
        FsNode::Missing
    } else if cs[0].0@ == name {
        cs[0].1
    } else {
        lookup_child(cs.skip(1), name)
    }
}

/// What copying `src` (standing at `sp`) over `dst` (standing at `dp`)
/// does: the destination paths written, in order, or the issue that stops
/// the copy. A missing source is skipped; a directory is copied entry by
/// entry.
pub open spec fn copy_plan(src: FsNode, dst: FsNode, sp: Seq<char>, dp: Seq<char>) -> Result<
    Seq<Seq<char>>,
    CopyIssue,
>
    decreases src, 0int,
{
    match src {
        FsNode::Missing => Ok(Seq::empty()),
        FsNode::File => if dst is Dir {
            Err(CopyIssue::FileOverDir { source: sp, destination: dp })
        } else {
            Ok(seq![dp])
        },
        FsNode::Dir(children) => if dst is File {
            Err(CopyIssue::DirOverFile { source: sp, destination: dp })
        } else {
            copy_plan_children(children@, 0, dst, sp, dp)
        },
        FsNode::Special => Err(CopyIssue::NotAFileOrDir { source: sp }),
    }
}

/// The copy plan of the entries of a directory from index `i` on.
pub open spec fn copy_plan_children(
    cs: Seq<(String, FsNode)>,
    i: int,
    dst: FsNode,
    sp: Seq<char>,
    dp: Seq<char>,
) -> Result<Seq<Seq<char>>, CopyIssue>
    decreases cs, cs.len() - i,
{
    if i < 0 || i >= cs.len() {
        Ok(Seq::empty())
    } else {
        let name = cs[i].0@;
        match copy_plan(
            cs[i].1,
            lookup_child(child_entries(dst), name),
            join_under(sp, name),
            join_under(dp, name),
        ) {
            Err(e) => Err(e),
            Ok(ps) => match copy_plan_children(cs, i + 1, dst, sp, dp) {
                Err(e) => Err(e),
                Ok(rest) => Ok(ps + rest),
            },
        }
    }
}

/// Finds the first entry called `name`.
fn dir_find<'a>(children: &'a Vec<(String, FsNode)>, name: &String) -> (r: Option<&'a FsNode>)
    ensures
        (match r {
            Some(n) => *n == lookup_child(children@, name@),
            None => lookup_child(children@, name@) == FsNode::Missing,
        }),
{
    let mut i: usize = 0;
    proof {
        assert(children@.skip(0) =~= children@);
    }
    while i < children.len()
        invariant
            i <= children@.len(),
            lookup_child(children@, name@) == lookup_child(children@.skip(i as int), name@),
        decreases children@.len() - i,
    {
        proof {
            assert(children@.skip(i as int)[0] == children@[i as int]);
        }
        if children[i].0 == *name {
            return Some(&children[i].1);
        }
        proof {
            assert(children@.skip(i as int).skip(1) =~= children@.skip(i as int + 1));
        }
        i = i + 1;
    }
    proof {
        assert(children@.skip(i as int) =~= Seq::<(String, FsNode)>::empty());
    }
    None
}

/// Copies `source` over `destination`, returning the destination paths
/// written. A missing source is skipped, a directory is copied recursively,
/// and a special file or a file/directory mismatch stops the copy.
pub fn copy(source: &FsNode, destination: &FsNode, source_path: &str, destination_path: &str) -> (r:
    Result<Vec<String>, Error>)
    ensures
        (match copy_plan(*source, *destination, source_path@, destination_path@) {
            Ok(ps) => r matches Ok(v) && v.deep_view() == ps,
            Err(issue) => r matches Err(e) && e@.kind == ErrorKind::CopyFailed && e@.message
                == copy_issue_message(issue),
        }),
    decreases *source,
{
    match source {
        FsNode::Missing => {
            let v: Vec<String> = Vec::new();
            proof {
                assert(v.deep_view() =~= Seq::<Seq<char>>::empty());
            }
            Ok(v)
        },
        FsNode::Special => {
            let mut m = String::from_str("source '");
            m.append(source_path);
            m.append("' is neither a file nor dir");
            proof {
                reveal_strlit("source '");
                reveal_strlit("' is neither a file nor dir");
                assert(m@ =~= copy_issue_message(
                    CopyIssue::NotAFileOrDir { source: source_path@ },
                ));
            }
            Err(Error::new(ErrorKind::CopyFailed, m))
        },
        FsNode::File => {
            match destination {
                FsNode::Dir(_) => {
                    let mut m = String::from_str("source '");
                    m.append(source_path);
                    m.append("' is a file but destination '");
                    m.append(destination_path);
                    m.append("' is a dir");
                    proof {
                        reveal_strlit("source '");
                        reveal_strlit("' is a file but destination '");
                        reveal_strlit("' is a dir");
                        assert(m@ =~= copy_issue_message(
                            CopyIssue::FileOverDir {
                                source: source_path@,
                                destination: destination_path@,
                            },
                        ));
                    }
                    Err(Error::new(ErrorKind::CopyFailed, m))
                },
                _ => {
                    let mut v: Vec<String> = Vec::new();
                    v.push(String::from_str(destination_path));
                    proof {
                        assert(v.deep_view() =~= seq![destination_path@]);
                    }
                    Ok(v)
                },
            }
        },
        FsNode::Dir(children) => {
            match destination {
                FsNode::File => {
                    let mut m = String::from_str("source '");
                    m.append(source_path);
                    m.append("' is a dir but destination '");
                    m.append(destination_path);
                    m.append("' is a file");
                    proof {
                        reveal_strlit("source '");
                        reveal_strlit("' is a dir but destination '");
                        reveal_strlit("' is a file");
                        assert(m@ =~= copy_issue_message(
                            CopyIssue::DirOverFile {
                                source: source_path@,
                                destination: destination_path@,
                            },
                        ));
                    }
                    Err(Error::new(ErrorKind::CopyFailed, m))
                },
                _ => {
                    let missing = FsNode::Missing;
                    let mut copied: Vec<String> = Vec::new();
                    let mut i: usize = 0;
                    proof {
                        assert(copied.deep_view() =~= Seq::<Seq<char>>::empty());
                        assert(copied.deep_view() + copy_plan_children(
                            children@,
                            0,
                            *destination,
                            source_path@,
                            destination_path@,
                        )->Ok_0 =~= copy_plan_children(
                            children@,
                            0,
                            *destination,
                            source_path@,
                            destination_path@,
                        )->Ok_0);
                    }
                    while i < children.len()
                        invariant
                            i <= children@.len(),
                            *source == FsNode::Dir(*children),
                            !(*destination is File),
                            missing == FsNode::Missing,
                            (match copy_plan_children(
                                children@,
                                i as int,
                                *destination,
                                source_path@,
                                destination_path@,
                            ) {
                                Ok(rest) => copy_plan(
                                    *source,
                                    *destination,
                                    source_path@,
                                    destination_path@,
                                ) == Ok::<_, CopyIssue>(copied.deep_view() + rest),
                                Err(e) => copy_plan(
                                    *source,
                                    *destination,
                                    source_path@,
                                    destination_path@,
                                ) == Err::<Seq<Seq<char>>, _>(e),
                            }),
                        decreases children@.len() - i,
                    {
                        let name = &children[i].0;
                        let child_source = &children[i].1;
                        let found = match destination {
                            FsNode::Dir(dcs) => dir_find(dcs, name),
                            _ => None,
                        };
                        let child_destination = match found {
                            Some(n) => n,
                            None => &missing,
                        };
                        proof {
                            assert(*child_destination == lookup_child(
                                child_entries(*destination),
                                name@,
                            ));
                        }
                        let child_source_path = joined(source_path, name.as_str());
                        let child_destination_path = joined(destination_path, name.as_str());
                        proof {
                            assert(decreases_to!(*source => *children));
                            assert(decreases_to!(*children => children@));
                            assert(decreases_to!(children@ => children@[i as int]));
                            assert(decreases_to!(children@[i as int] => children@[i as int].1));
                        }
                        let child_result = copy(
                            child_source,
                            child_destination,
                            child_source_path.as_str(),
                            child_destination_path.as_str(),
                        );
                        match child_result {
                            Ok(mut ps) => {
                                let ghost copied_before: Seq<Seq<char>> = copied.deep_view();
                                let ghost ps_view: Seq<Seq<char>> = ps.deep_view();
                                copied.append(&mut ps);
                                proof {
                                    assert(copied.deep_view() =~= copied_before + ps_view);
                                    match copy_plan_children(
                                        children@,
                                        i + 1,
                                        *destination,
                                        source_path@,
                                        destination_path@,
                                    ) {
                                        Ok(rest) => {
                                            assert(copied_before + (ps_view + rest) =~= (
                                            copied_before + ps_view) + rest);
                                        },
                                        Err(e) => {},
                                    }
                                }
                                i = i + 1;
                            },
                            Err(e) => {
                                return Err(e);
                            },
                        }
                    }
                    proof {
                        assert(copy_plan_children(
                            children@,
                            i as int,
                            *destination,
                            source_path@,
                            destination_path@,
                        ) == Ok::<Seq<Seq<char>>, CopyIssue>(Seq::empty()));
                        assert(copied.deep_view() + Seq::<Seq<char>>::empty() =~= copied.deep_view());
                    }
                    Ok(copied)
                },
            }
        },
    }
}

/// Mirroring is a round trip: copying a configured path back onto the host
/// reads exactly the repository file that mirroring into the repository
/// wrote, and writes exactly the host file it read. A byte-for-byte copy
/// along the second pair therefore restores what the first copy saw.
pub proof fn lemma_mirror_round_trip(host_root: Seq<char>, repo_root: Seq<char>, path: Seq<char>)
    ensures
        host_pair_spec(host_root, repo_root, path).0 == repo_pair_spec(
            host_root,
            repo_root,
            path,
        ).1,
        host_pair_spec(host_root, repo_root, path).1 == repo_pair_spec(
            host_root,
            repo_root,
            path,
        ).0,
{
}

} // verus!
