//! The argument-vector backend: building `git` command lines.
//!
//! One backend binding runs the version-control executable. The argument
//! vector for each operation is assembled here and verified; spawning the
//! process and reading its exit status stay in the driver.

use vstd::prelude::*;
use vstd::string::StringExecFns;

verus! {

/// One `git` invocation being assembled: an optional working directory and
/// the argument vector, in order.
pub struct Git {
    workdir: Option<String>,
    args: Vec<String>,
}

/// The mathematical content of a `Git` command line.
pub struct GitV {
    pub workdir: Option<Seq<char>>,
    pub args: Seq<Seq<char>>,
}

impl View for Git {
    type V = GitV;

    closed spec fn view(&self) -> GitV {
        GitV { workdir: self.workdir.deep_view(), args: self.args.deep_view() }
    }
}

impl Git {
    /// An empty command line, to run in the given directory if one is
    /// given.
    pub fn new(repository: Option<String>) -> (r: Git)
        ensures
            r@.workdir == repository.deep_view(),
            r@.args == Seq::<Seq<char>>::empty(),
    {
        let r = Git { workdir: repository, args: Vec::new() };
        proof {
            assert(r@.args =~= Seq::<Seq<char>>::empty());
        }
        r
    }

    /// The working directory the command is to run in.
    pub fn get_workdir(&self) -> (r: &Option<String>)
        ensures
            r.deep_view() == self@.workdir,
    {
        &self.workdir
    }

    /// The assembled argument vector.
    pub fn get_args(&self) -> (r: &Vec<String>)
        ensures
            r.deep_view() == self@.args,
    {
        &self.args
    }

    /// Appends one argument.
    pub fn arg(self, arg: &str) -> (r: Git)
        ensures
            r@.workdir == self@.workdir,
            r@.args == self@.args.push(arg@),
    {
        let mut s = self;
        s.args.push(String::from_str(arg));
        proof {
            assert(s@.args =~= self@.args.push(arg@));
        }
        s
    }

    /// Appends every argument, in order.
    pub fn args(self, args: Vec<&str>) -> (r: Git)
        ensures
            r@.workdir == self@.workdir,
            r@.args == self@.args + args.deep_view(),
    {
        let ghost initial: Seq<Seq<char>> = self@.args;
        let mut s = self;
        let mut i: usize = 0;
        proof {
            assert(s@.args =~= initial + args.deep_view().take(0));
        }
        while i < args.len()
            invariant
                i <= args@.len(),
                s@.workdir == self@.workdir,
                s@.args == initial + args.deep_view().take(i as int),
            decreases args@.len() - i,
        {
            let ghost before: Seq<Seq<char>> = s@.args;
            s = s.arg(args[i]);
            i = i + 1;
            proof {
                assert(before.push(args.deep_view()[i - 1]) =~= initial + args.deep_view().take(
                    i as int,
                ));
            }
        }
        proof {
            assert(args.deep_view().take(i as int) =~= args.deep_view());
        }
        s
    }

    /// Appends `--` and the pathspecs, or nothing when there are none.
    pub fn pathspec(self, pathspecs: Vec<&str>) -> (r: Git)
        ensures
            r@.workdir == self@.workdir,
            r@.args == if pathspecs.deep_view().len() == 0 {
                self@.args
            } else {
                self@.args.push("--"@) + pathspecs.deep_view()
            },
    {
        if pathspecs.len() != 0 {
            self.arg("--").args(pathspecs)
        } else {
            self
        }
    }

    /// Appends the argument when one is given.
    pub fn optional_arg(self, arg: Option<&str>) -> (r: Git)
        ensures
            r@.workdir == self@.workdir,
            r@.args == (match arg {
                Some(a) => self@.args.push(a@),
                None => self@.args,
            }),
    {
        match arg {
            Some(a) => self.arg(a),
            None => self,
        }
    }

    /// The command line cloning `repository` into `directory`.
    pub fn clone(self, options: Vec<&str>, repository: &str, directory: &str) -> (r: Git)
        ensures
            r@.workdir == self@.workdir,
            r@.args == self@.args.push("clone"@) + options.deep_view() + seq![
                "--"@,
                repository@,
                directory@,
            ],
    {
        let r = self.arg("clone").args(options).arg("--").arg(repository).arg(directory);
        proof {
            assert(r@.args =~= self@.args.push("clone"@) + options.deep_view() + seq![
                "--"@,
                repository@,
                directory@,
            ]);
        }
        r
    }

    /// The command line checking out `branch`.
    pub fn checkout(self, options: Vec<&str>, branch: &str) -> (r: Git)
        ensures
            r@.workdir == self@.workdir,
            r@.args == self@.args.push("checkout"@) + options.deep_view() + seq![branch@],
    {
        let r = self.arg("checkout").args(options).arg(branch);
        proof {
            assert(r@.args =~= self@.args.push("checkout"@) + options.deep_view() + seq![branch@]);
        }
        r
    }

    /// The command line reporting the working-tree status.
    pub fn status(self, options: Vec<&str>, pathspecs: Vec<&str>) -> (r: Git)
        ensures
            r@.workdir == self@.workdir,
            r@.args == ({
                let base = self@.args.push("status"@) + options.deep_view();
                if pathspecs.deep_view().len() == 0 {
                    base
                } else {
                    base.push("--"@) + pathspecs.deep_view()
                }
            }),
    {
        self.arg("status").args(options).pathspec(pathspecs)
    }

    /// The command line resolving a revision.
    pub fn rev_parse(self, option: &str, args: Vec<&str>) -> (r: Git)
        ensures
            r@.workdir == self@.workdir,
            r@.args == self@.args.push("rev-parse"@).push(option@) + args.deep_view(),
    {
        self.arg("rev-parse").arg(option).args(args)
    }

    /// The command line staging the pathspecs.
    pub fn add(self, options: Vec<&str>, pathspecs: Vec<&str>) -> (r: Git)
        ensures
            r@.workdir == self@.workdir,
            r@.args == ({
                let base = self@.args.push("add"@) + options.deep_view();
                if pathspecs.deep_view().len() == 0 {
                    base
                } else {
                    base.push("--"@) + pathspecs.deep_view()
                }
            }),
    {
        self.arg("add").args(options).pathspec(pathspecs)
    }

    /// The command line committing the given files, or the index.
    pub fn commit(self, options: Vec<&str>, files: Vec<&str>) -> (r: Git)
        ensures
            r@.workdir == self@.workdir,
            r@.args == ({
                let base = self@.args.push("commit"@) + options.deep_view();
                if files.deep_view().len() == 0 {
                    base
                } else {
                    base.push("--"@) + files.deep_view()
                }
            }),
    {
        self.arg("commit").args(options).pathspec(files)
    }

    /// The command line pushing with the given options.
    pub fn push(self, options: Vec<&str>) -> (r: Git)
        ensures
            r@.workdir == self@.workdir,
            r@.args == self@.args.push("push"@) + options.deep_view(),
    {
        self.arg("push").args(options)
    }

    /// The command line pulling, optionally from a named repository.
    pub fn pull(self, options: Vec<&str>, repository: Option<&str>, refspec: Vec<&str>) -> (r: Git)
        ensures
            r@.workdir == self@.workdir,
            r@.args == ({
                let base = self@.args.push("pull"@) + options.deep_view();
                let with_repo = match repository {
                    Some(a) => base.push(a@),
                    None => base,
                };
                with_repo + refspec.deep_view()
            }),
    {
        self.arg("pull").args(options).optional_arg(repository).args(refspec)
    }

    /// The command line operating on branches.
    pub fn branch(self, options: Vec<&str>) -> (r: Git)
        ensures
            r@.workdir == self@.workdir,
            r@.args == self@.args.push("branch"@) + options.deep_view(),
    {
        self.arg("branch").args(options)
    }
}

} // verus!
