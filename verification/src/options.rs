//! Command-line options of the tool.
//!
//! `parse` walks the argument vector and fills an `Options` value; the last
//! command named wins, `clone` and `checkout` consume one following argument,
//! and an unknown word stops parsing with a diagnostic line.

use vstd::prelude::*;
use vstd::string::StringExecFns;

verus! {

/// The command a run was asked to perform.
#[derive(Clone, Copy, PartialEq, Eq, Structural, Debug)]
pub enum Command {
    /// No command was named on the command line.
    Unset,
    /// Clone a remote repository.
    CloneRepo,
    /// Check out a branch.
    Checkout,
    /// Pull upstream changes and back up local edits.
    Pull,
    /// Push local changes after a pull.
    Push,
}

/// The mathematical content of `Options`.
pub struct OptionsV {
    pub command: Command,
    pub repo: Seq<char>,
    pub branch: Seq<char>,
    pub help: bool,
}

/// The parsed command line.
#[derive(Debug)]
pub struct Options {
    command: Command,
    repo: String,
    branch: String,
    help: bool,
}

impl View for Options {
    type V = OptionsV;

    closed spec fn view(&self) -> OptionsV {
        OptionsV {
            command: self.command,
            repo: self.repo@,
            branch: self.branch@,
            help: self.help,
        }
    }
}

/// The options value parsing starts from.
pub open spec fn init_options() -> OptionsV {
    OptionsV { command: Command::Unset, repo: Seq::empty(), branch: Seq::empty(), help: false }
}

/// The diagnostic line for `clone` without its repository argument.
pub open spec fn clone_usage_message() -> Seq<char> {
    "'bog clone' requires REPO argument.\n Usage: bog clone REPO."@
}

/// The diagnostic line for `checkout` without its branch argument.
pub open spec fn checkout_usage_message() -> Seq<char> {
    "'bog checkout' requires BRANCH argument.\n Usage: bog checkout BRANCH."@
}

/// The diagnostic line for an unknown word on the command line.
pub open spec fn invalid_command_message(word: Seq<char>) -> Seq<char> {
    "'"@ + word + "' is not a valid command"@
}

/// What parsing the arguments from position `i` onward, with `cur` already
/// accumulated, returns.
pub open spec fn parse_from(args: Seq<Seq<char>>, i: int, cur: OptionsV) -> Result<
    OptionsV,
    Seq<char>,
>
    decreases args.len() - i,
{
    if i < 0 || i >= args.len() {
        Ok(cur)
    } else {
        let a = args[i];
        if a == "--help"@ {
            parse_from(args, i + 1, OptionsV { help: true, ..cur })
        } else if a == "clone"@ {
            if i + 1 >= args.len() {
                Err(clone_usage_message())
            } else {
                parse_from(
                    args,
                    i + 2,
                    OptionsV { command: Command::CloneRepo, repo: args[i + 1], ..cur },
                )
            }
        } else if a == "checkout"@ {
            if i + 1 >= args.len() {
                Err(checkout_usage_message())
            } else {
                parse_from(
                    args,
                    i + 2,
                    OptionsV { command: Command::Checkout, branch: args[i + 1], ..cur },
                )
            }
        } else if a == "pull"@ {
            parse_from(args, i + 1, OptionsV { command: Command::Pull, ..cur })
        } else if a == "push"@ {
            parse_from(args, i + 1, OptionsV { command: Command::Push, ..cur })
        } else {
            Err(invalid_command_message(a))
        }
    }
}

/// What parsing a full argument vector returns; the first entry is the
/// program name and is skipped.
pub open spec fn parse_result(args: Seq<Seq<char>>) -> Result<OptionsV, Seq<char>> {
    parse_from(args, 1, init_options())
}

impl Options {
    /// The empty options value.
    pub fn new() -> (r: Options)
        ensures
            r@ == init_options(),
    {
        Options { command: Command::Unset, repo: String::new(), branch: String::new(), help: false }
    }

    /// The command that was named last, if any.
    pub fn get_command(&self) -> (r: &Command)
        ensures
            *r == self@.command,
    {
        &self.command
    }

    /// Whether `--help` was given.
    pub fn get_help(&self) -> (r: &bool)
        ensures
            *r == self@.help,
    {
        &self.help
    }

    /// The repository argument of `clone`.
    pub fn get_repo(&self) -> (r: &String)
        ensures
            r@ == self@.repo,
    {
        &self.repo
    }

    /// The branch argument of `checkout`.
    pub fn get_branch(&self) -> (r: &String)
        ensures
            r@ == self@.branch,
    {
        &self.branch
    }

    /// Parses an argument vector, program name first.
    pub fn parse(args: Vec<String>) -> (r: Result<Options, String>)
        ensures
            match parse_result(args.deep_view()) {
                Ok(o) => r matches Ok(opts) && opts@ == o,
                Err(m) => r matches Err(e) && e@ == m,
            },
    {
        let help_word = String::from_str("--help");
        let clone_word = String::from_str("clone");
        let checkout_word = String::from_str("checkout");
        let pull_word = String::from_str("pull");
        let push_word = String::from_str("push");
        let mut options = Options::new();
        let mut i: usize = 1;
        while i < args.len()
            invariant
                1 <= i,
                help_word@ == "--help"@,
                clone_word@ == "clone"@,
                checkout_word@ == "checkout"@,
                pull_word@ == "pull"@,
                push_word@ == "push"@,
                parse_result(args.deep_view()) == parse_from(args.deep_view(), i as int, options@),
            decreases args.len() - i,
        {
            let a = &args[i];
            if *a == help_word {
                options.help = true;
            } else if *a == clone_word {
                i = i + 1;
                if i >= args.len() {
                    let mut m = String::from_str("'bog clone' requires REPO argument.");
                    m.append("\n Usage: bog clone REPO.");
                    proof {
                        reveal_strlit("'bog clone' requires REPO argument.");
                        reveal_strlit("\n Usage: bog clone REPO.");
                        reveal_strlit("'bog clone' requires REPO argument.\n Usage: bog clone REPO.");
                        assert(m@ =~= clone_usage_message());
                    }
                    return Err(m);
                }
                options.command = Command::CloneRepo;
                options.repo = args[i].clone();
            } else if *a == checkout_word {
                i = i + 1;
                if i >= args.len() {
                    let mut m = String::from_str("'bog checkout' requires BRANCH argument.");
                    m.append("\n Usage: bog checkout BRANCH.");
                    proof {
                        reveal_strlit("'bog checkout' requires BRANCH argument.");
                        reveal_strlit("\n Usage: bog checkout BRANCH.");
                        reveal_strlit(
                            "'bog checkout' requires BRANCH argument.\n Usage: bog checkout BRANCH.",
                        );
                        assert(m@ =~= checkout_usage_message());
                    }
                    return Err(m);
                }
                options.command = Command::Checkout;
                options.branch = args[i].clone();
            } else if *a == pull_word {
                options.command = Command::Pull;
            } else if *a == push_word {
                options.command = Command::Push;
            } else {
                let mut m = String::from_str("'");
                m.append(a.as_str());
                m.append("' is not a valid command");
                proof {
                    reveal_strlit("'");
                    reveal_strlit("' is not a valid command");
                    assert(m@ =~= invalid_command_message(args.deep_view()[i as int]));
                }
                return Err(m);
            }
            i = i + 1;
        }
        Ok(options)
    }
}

} // verus!
