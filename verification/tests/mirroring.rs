use scog::error::ErrorKind;
use scog::mirror::copy;
use scog::mirror::host_pairs;
use scog::mirror::joined;
use scog::mirror::mirror_relative;
use scog::mirror::rebase;
use scog::mirror::repo_pairs;
use scog::mirror::to_host_pair;
use scog::mirror::to_repo_pair;
use scog::mirror::FsNode;

#[test]
fn relative_strips_leading_separators() {
    assert_eq!(mirror_relative("/home/u/.bashrc"), "home/u/.bashrc");
    assert_eq!(mirror_relative("//twice"), "twice");
    assert_eq!(mirror_relative("already/relative"), "already/relative");
    assert_eq!(mirror_relative("/"), "");
}

#[test]
fn joined_inserts_one_separator() {
    assert_eq!(joined("/repo", "home/u/.bashrc"), "/repo/home/u/.bashrc");
    assert_eq!(joined("/", "home/u/.bashrc"), "/home/u/.bashrc");
    assert_eq!(joined("", "x"), "/x");
    assert_eq!(joined("/repo/", "x"), "/repo/x");
}

#[test]
fn repo_pair_places_file_under_repo_root() {
    let (src, dst) = to_repo_pair("/", "/repo", "/home/u/.bashrc");
    assert_eq!(src, "/home/u/.bashrc");
    assert_eq!(dst, "/repo/home/u/.bashrc");
}

#[test]
fn round_trip_restores_the_original_bytes() {
    // A model store of file contents, keyed by full path.
    let mut store: Vec<(String, Vec<u8>)> = Vec::new();
    let original: Vec<u8> = b"export EDITOR=vi\n".to_vec();
    store.push(("/home/u/.bashrc".to_string(), original.clone()));

    // Mirror into the repository: read at the pair's source, write at its
    // destination.
    let (src, dst) = to_repo_pair("/", "/repo", "/home/u/.bashrc");
    let bytes = store.iter().find(|e| e.0 == src).unwrap().1.clone();
    store.push((dst.clone(), bytes));
    assert_eq!(dst, "/repo/home/u/.bashrc");

    // Mirror back onto the host: the pair is exactly the reverse.
    let (back_src, back_dst) = to_host_pair("/", "/repo", "/home/u/.bashrc");
    assert_eq!(back_src, dst);
    assert_eq!(back_dst, src);
    let read_back = store.iter().find(|e| e.0 == back_src).unwrap().1.clone();
    assert_eq!(read_back, original);
}

#[test]
fn pair_lists_follow_the_configuration_order() {
    let paths = vec!["/a".to_string(), "/b/c".to_string()];
    let into = repo_pairs(&paths, "/", "/repo");
    assert_eq!(into.len(), 2);
    assert_eq!(into[0], ("/a".to_string(), "/repo/a".to_string()));
    assert_eq!(into[1], ("/b/c".to_string(), "/repo/b/c".to_string()));
    let back = host_pairs(&paths, "/", "/repo");
    assert_eq!(back[0], ("/repo/a".to_string(), "/a".to_string()));
    assert_eq!(back[1], ("/repo/b/c".to_string(), "/b/c".to_string()));
}

#[test]
fn rebase_swaps_the_root() {
    assert_eq!(
        rebase("/repo/home/u/.bashrc", "/repo", "/backup").as_deref(),
        Some("/backup/home/u/.bashrc")
    );
    assert_eq!(rebase("/repo/x", "/repo", "").as_deref(), Some("/x"));
    assert_eq!(rebase("/elsewhere/x", "/repo", "/backup"), None);
    assert_eq!(rebase("/r", "/repo", "/backup"), None);
}

#[test]
fn copy_skips_a_missing_source() {
    let r = copy(&FsNode::Missing, &FsNode::Missing, "/s", "/d").unwrap();
    assert!(r.is_empty());
}

#[test]
fn copy_copies_a_file() {
    let r = copy(&FsNode::File, &FsNode::Missing, "/s/f", "/d/f").unwrap();
    assert_eq!(r, vec!["/d/f".to_string()]);
}

#[test]
fn copy_overwrites_an_existing_file() {
    let r = copy(&FsNode::File, &FsNode::File, "/s/f", "/d/f").unwrap();
    assert_eq!(r, vec!["/d/f".to_string()]);
}

#[test]
fn copy_refuses_a_special_source() {
    let e = copy(&FsNode::Special, &FsNode::Missing, "/s/sock", "/d/sock").unwrap_err();
    assert_eq!(e.kind(), ErrorKind::CopyFailed);
    assert_eq!(e.error(), "source '/s/sock' is neither a file nor dir");
}

#[test]
fn copy_refuses_a_file_over_a_directory() {
    let dest = FsNode::Dir(vec![]);
    let e = copy(&FsNode::File, &dest, "/s/f", "/d/f").unwrap_err();
    assert_eq!(e.kind(), ErrorKind::CopyFailed);
    assert_eq!(e.error(), "source '/s/f' is a file but destination '/d/f' is a dir");
}

#[test]
fn copy_refuses_a_directory_over_a_file() {
    let src = FsNode::Dir(vec![("a".to_string(), FsNode::File)]);
    let e = copy(&src, &FsNode::File, "/s", "/d").unwrap_err();
    assert_eq!(e.kind(), ErrorKind::CopyFailed);
    assert_eq!(e.error(), "source '/s' is a dir but destination '/d' is a file");
}

#[test]
fn copy_recurses_through_directories() {
    let src = FsNode::Dir(vec![
        ("a".to_string(), FsNode::File),
        (
            "sub".to_string(),
            FsNode::Dir(vec![("b".to_string(), FsNode::File), ("gone".to_string(), FsNode::Missing)]),
        ),
    ]);
    let r = copy(&src, &FsNode::Missing, "/s", "/d").unwrap();
    assert_eq!(r, vec!["/d/a".to_string(), "/d/sub/b".to_string()]);
}

#[test]
fn copy_checks_the_matching_destination_entry() {
    let src = FsNode::Dir(vec![("a".to_string(), FsNode::File)]);
    let dest = FsNode::Dir(vec![("a".to_string(), FsNode::Dir(vec![]))]);
    let e = copy(&src, &dest, "/s", "/d").unwrap_err();
    assert_eq!(e.error(), "source '/s/a' is a file but destination '/d/a' is a dir");
}
