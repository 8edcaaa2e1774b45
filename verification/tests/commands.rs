use scog::controller::cluster;
use scog::controller::end;
use scog::controller::step;
use scog::git::Git;

fn strs(args: &Vec<String>) -> Vec<&str> {
    args.iter().map(|a| a.as_str()).collect()
}

#[test]
fn git_clone_argv() {
    let g = Git::new(None).clone(vec![], "git@host:me/dots.git", "/home/u/.scog");
    assert_eq!(strs(g.get_args()), vec!["clone", "--", "git@host:me/dots.git", "/home/u/.scog"]);
    assert!(g.get_workdir().is_none());
}

#[test]
fn git_checkout_argv() {
    let g = Git::new(Some("/repo".to_string())).checkout(vec!["-b"], "_backup_main_x");
    assert_eq!(strs(g.get_args()), vec!["checkout", "-b", "_backup_main_x"]);
    assert_eq!(g.get_workdir().as_deref(), Some("/repo"));
}

#[test]
fn git_status_argv() {
    let g = Git::new(Some("/repo".to_string())).status(vec!["--porcelain"], vec![]);
    assert_eq!(strs(g.get_args()), vec!["status", "--porcelain"]);
}

#[test]
fn git_rev_parse_argv() {
    let g = Git::new(None).rev_parse("--abbrev-ref", vec!["HEAD"]);
    assert_eq!(strs(g.get_args()), vec!["rev-parse", "--abbrev-ref", "HEAD"]);
}

#[test]
fn git_add_argv_uses_a_pathspec_separator() {
    let g = Git::new(None).add(vec![], vec![".bashrc", ".vimrc"]);
    assert_eq!(strs(g.get_args()), vec!["add", "--", ".bashrc", ".vimrc"]);
}

#[test]
fn git_add_argv_without_pathspecs() {
    let g = Git::new(None).add(vec!["-A"], vec![]);
    assert_eq!(strs(g.get_args()), vec!["add", "-A"]);
}

#[test]
fn git_commit_argv() {
    let g = Git::new(None).commit(vec!["-m", "2024-03-07"], vec![]);
    assert_eq!(strs(g.get_args()), vec!["commit", "-m", "2024-03-07"]);
}

#[test]
fn git_push_argv() {
    let g = Git::new(None).push(vec!["-u", "origin", "HEAD"]);
    assert_eq!(strs(g.get_args()), vec!["push", "-u", "origin", "HEAD"]);
}

#[test]
fn git_pull_argv() {
    let g = Git::new(None).pull(vec!["--ff-only"], None, vec![]);
    assert_eq!(strs(g.get_args()), vec!["pull", "--ff-only"]);
    let g = Git::new(None).pull(vec![], Some("origin"), vec!["main"]);
    assert_eq!(strs(g.get_args()), vec!["pull", "origin", "main"]);
}

#[test]
fn git_branch_argv() {
    let g = Git::new(None).branch(vec!["-d", "_backup_main_x"]);
    assert_eq!(strs(g.get_args()), vec!["branch", "-d", "_backup_main_x"]);
}

fn double_if_small(x: u32) -> Result<u32, String> {
    if x < 100 {
        Ok(2 * x)
    } else {
        Err("too big".to_string())
    }
}

fn add_one(x: u32) -> Result<u32, String> {
    if x < 1000 {
        Ok(x + 1)
    } else {
        Err("way too big".to_string())
    }
}

#[test]
fn step_threads_a_success() {
    assert_eq!(step(double_if_small, add_one, 3), Ok(7));
}

#[test]
fn step_stops_at_the_first_error() {
    assert_eq!(step(double_if_small, add_one, 100), Err("too big".to_string()));
}

#[test]
fn end_runs_the_last_method() {
    assert_eq!(end(add_one, 41), Ok(42));
}

#[test]
fn cluster_runs_every_method_in_order() {
    let methods: Vec<fn(u32) -> Result<u32, String>> = vec![double_if_small, add_one, double_if_small];
    assert_eq!(cluster(methods, 5), Ok(22));
}

#[test]
fn cluster_short_circuits() {
    let methods: Vec<fn(u32) -> Result<u32, String>> = vec![double_if_small, double_if_small];
    assert_eq!(cluster(methods, 60), Err("too big".to_string()));
}
