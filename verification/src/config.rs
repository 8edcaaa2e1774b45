//! The mirrored-path configuration.
//!
//! A configuration is a list of sections, each naming one host path to
//! mirror. Reading and parsing the configuration file is the driver's job;
//! the library receives the sections as plain values.

use vstd::prelude::*;
use vstd::string::StringExecFns;

verus! {

/// One configured entry: a single host path to mirror.
#[derive(Clone)]
pub struct Section {
    path: String,
}

impl View for Section {
    type V = Seq<char>;

    closed spec fn view(&self) -> Seq<char> {
        self.path@
    }
}

impl DeepView for Section {
    type V = Seq<char>;

    open spec fn deep_view(&self) -> Seq<char> {
        self.view()
    }
}

impl Section {
    /// A section for the given host path.
    pub fn new(path: String) -> (r: Section)
        ensures
            r@ == path@,
    {
        Section { path }
    }

    /// The host path this section mirrors.
    pub fn path(&self) -> (r: String)
        ensures
            r@ == self@,
    {
        self.path.clone()
    }
}

/// The full configuration: every section to mirror.
#[derive(Clone)]
pub struct Config {
    sections: Vec<Section>,
}

impl View for Config {
    type V = Seq<Seq<char>>;

    closed spec fn view(&self) -> Seq<Seq<char>> {
        self.sections.deep_view()
    }
}

impl Config {
    /// A configuration made of the given sections.
    pub fn new(sections: Vec<Section>) -> (r: Config)
        ensures
            r@ == sections.deep_view(),
    {
        Config { sections }
    }

    /// The configured sections.
    pub fn sections(&self) -> (r: &Vec<Section>)
        ensures
            r.deep_view() == self@,
    {
        &self.sections
    }
}

} // verus!
