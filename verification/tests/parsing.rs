use scog::options::Command;
use scog::options::Options;

fn args(words: &[&str]) -> Vec<String> {
    words.iter().map(|w| w.to_string()).collect()
}

#[test]
fn parse_pull() {
    let o = Options::parse(args(&["bog", "pull"])).unwrap();
    assert_eq!(*o.get_command(), Command::Pull);
    assert!(!*o.get_help());
}

#[test]
fn parse_push() {
    let o = Options::parse(args(&["bog", "push"])).unwrap();
    assert_eq!(*o.get_command(), Command::Push);
}

#[test]
fn parse_clone_takes_repo() {
    let o = Options::parse(args(&["bog", "clone", "git@host:me/dotfiles.git"])).unwrap();
    assert_eq!(*o.get_command(), Command::CloneRepo);
    assert_eq!(o.get_repo().as_str(), "git@host:me/dotfiles.git");
}

#[test]
fn parse_clone_without_repo_fails() {
    let e = Options::parse(args(&["bog", "clone"])).unwrap_err();
    assert_eq!(e, "'bog clone' requires REPO argument.\n Usage: bog clone REPO.");
}

#[test]
fn parse_checkout_takes_branch() {
    let o = Options::parse(args(&["bog", "checkout", "dev"])).unwrap();
    assert_eq!(*o.get_command(), Command::Checkout);
    assert_eq!(o.get_branch().as_str(), "dev");
}

#[test]
fn parse_checkout_without_branch_fails() {
    let e = Options::parse(args(&["bog", "checkout"])).unwrap_err();
    assert_eq!(e, "'bog checkout' requires BRANCH argument.\n Usage: bog checkout BRANCH.");
}

#[test]
fn parse_help_flag() {
    let o = Options::parse(args(&["bog", "--help"])).unwrap();
    assert!(*o.get_help());
    assert_eq!(*o.get_command(), Command::Unset);
}

#[test]
fn parse_unknown_word_fails() {
    let e = Options::parse(args(&["bog", "frobnicate"])).unwrap_err();
    assert_eq!(e, "'frobnicate' is not a valid command");
}

#[test]
fn parse_no_arguments() {
    let o = Options::parse(args(&["bog"])).unwrap();
    assert_eq!(*o.get_command(), Command::Unset);
    assert!(!*o.get_help());
}

#[test]
fn parse_last_command_wins() {
    let o = Options::parse(args(&["bog", "pull", "push"])).unwrap();
    assert_eq!(*o.get_command(), Command::Push);
}

#[test]
fn parse_keeps_arguments_across_commands() {
    let o = Options::parse(args(&["bog", "clone", "url", "checkout", "dev"])).unwrap();
    assert_eq!(*o.get_command(), Command::Checkout);
    assert_eq!(o.get_repo().as_str(), "url");
    assert_eq!(o.get_branch().as_str(), "dev");
}
