//! The older shape of the mirrored-path configuration.
//!
//! The first generation of the tool listed its entries under `files`;
//! this form is kept for configurations written for it. As with the current
//! shape, file reading and parsing stay in the driver.

use vstd::prelude::*;

verus! {

/// One configured entry: a single host path.
pub struct File {
    file: String,
}

impl View for File {
    type V = Seq<char>;

    closed spec fn view(&self) -> Seq<char> {
        self.file@
    }
}

impl DeepView for File {
    type V = Seq<char>;

    open spec fn deep_view(&self) -> Seq<char> {
        self.view()
    }
}

impl File {
    /// An entry for the given host path.
    pub fn new(file: String) -> (r: File)
        ensures
            r@ == file@,
    {
        File { file }
    }

    /// The configured host path.
    pub fn get_file(&self) -> (r: &String)
        ensures
            r@ == self@,
    {
        &self.file
    }
}

/// The older configuration: the list of mirrored files.
pub struct Config {
    files: Vec<File>,
}

impl View for Config {
    type V = Seq<Seq<char>>;

    closed spec fn view(&self) -> Seq<Seq<char>> {
        self.files.deep_view()
    }
}

impl Config {
    /// A configuration made of the given entries.
    pub fn new(files: Vec<File>) -> (r: Config)
        ensures
            r@ == files.deep_view(),
    {
        Config { files }
    }

    /// The configured entries.
    pub fn get_files(&self) -> (r: &Vec<File>)
        ensures
            r.deep_view() == self@,
    {
        &self.files
    }
}

} // verus!
